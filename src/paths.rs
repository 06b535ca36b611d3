//! Where session artifacts live: the storage directory and the paths of the
//! files inside it.

use vstd::prelude::*;
use crate::ids::{decimal, digit_chars, lemma_decimal_digits, lemma_digits_distinct, lemma_session_id_injective, session_id_spec};

verus! {

/// The name of the application folder inside the chosen base directory.
pub open spec fn storage_folder() -> Seq<char> {
    seq![
        'A', 'p', 'p', 'l', 'e', 's', 'a', 'u', 'c', 'e', 'C', 'a', 'c', 'h', 'e', 'N', 'a',
        't', 'i', 'v', 'e',
    ]
}

/// The extension of an artifact file, with its dot.
pub open spec fn wav_extension() -> Seq<char> {
    seq!['.', 'w', 'a', 'v']
}

/// Both `/` and `\` end a directory, so that a directory written in either
/// style is not given a second separator.
pub open spec fn is_separator(c: char) -> bool {
    c == '/' || c == '\\'
}

/// `name` inside the directory `dir`: a `/` goes between the two unless `dir`
/// is empty or already ends with a separator.
pub open spec fn joined(dir: Seq<char>, name: Seq<char>) -> Seq<char> {
    if dir.len() == 0 {
        name
    } else if is_separator(dir.last()) {
        dir + name
    } else {
        dir + seq!['/'] + name
    }
}

pub open spec fn ends_with(s: Seq<char>, t: Seq<char>) -> bool {
    t.len() <= s.len() && s.subrange(s.len() - t.len(), s.len() as int) == t
}

/// The file name of the artifact of the session `id`.
pub open spec fn artifact_name(id: Seq<char>) -> Seq<char> {
    id + wav_extension()
}

/// The storage directory resolved from the user's download directory, when
/// the platform has one, and the temporary directory otherwise.
pub open spec fn resolved_storage_dir(download: Option<Seq<char>>, temp: Seq<char>) -> Seq<char> {
    match download {
        Some(d) => joined(d, storage_folder()),
        None => joined(temp, storage_folder()),
    }
}

/// The text of an optional string.
pub open spec fn opt_view(o: Option<String>) -> Option<Seq<char>> {
    match o {
        Some(s) => Some(s@),
        None => None,
    }
}

pub proof fn lemma_joined_ends_with(dir: Seq<char>, name: Seq<char>)
    ensures
        ends_with(joined(dir, name), name),
{
    let j = joined(dir, name);
    assert(j.subrange(j.len() - name.len(), j.len() as int) =~= name);
}

/// No artifact name of a session is a proper suffix of another.
proof fn lemma_artifact_not_proper_suffix(p: Seq<char>, a: nat, b: nat)
    requires
        ends_with(p, artifact_name(session_id_spec(a))),
        ends_with(p, artifact_name(session_id_spec(b))),
    ensures
        artifact_name(session_id_spec(a)).len() >= artifact_name(session_id_spec(b)).len(),
{
    let na = artifact_name(session_id_spec(a));
    let nb = artifact_name(session_id_spec(b));
    lemma_decimal_digits(a);
    lemma_decimal_digits(b);
    lemma_digits_distinct();
    if na.len() < nb.len() {
        let k = nb.len() - na.len();
        // the `-` of the shorter name would fall among the digits of the longer
        assert(p[p.len() - na.len() + 4] == na[4]);
        assert(p[p.len() - nb.len() + k + 4] == nb[k + 4]);
        assert(nb[k + 4] == decimal(b)[k - 1]);
        assert(digit_chars().contains(decimal(b)[k - 1]));
    }
}

/// A path ends with the artifact name of at most one session stamp.
pub proof fn lemma_artifact_suffix_unique(p: Seq<char>, a: nat, b: nat)
    requires
        ends_with(p, artifact_name(session_id_spec(a))),
        ends_with(p, artifact_name(session_id_spec(b))),
    ensures
        a == b,
{
    let na = artifact_name(session_id_spec(a));
    let nb = artifact_name(session_id_spec(b));
    lemma_artifact_not_proper_suffix(p, a, b);
    lemma_artifact_not_proper_suffix(p, b, a);
    assert(na =~= nb);
    assert(session_id_spec(a) =~= na.subrange(0, na.len() - 4));
    assert(session_id_spec(b) =~= nb.subrange(0, nb.len() - 4));
    lemma_session_id_injective(a, b);
}

/// `name` inside the directory `dir`.
pub fn join_path(dir: &str, name: &str) -> (r: String)
    ensures
        r@ == joined(dir@, name@),
{
    let n = dir.unicode_len();
    let mut r = String::new();
    r.append(dir);
    if n > 0 {
        let last = dir.get_char(n - 1);
        if last != '/' && last != '\\' {
            proof {
                reveal_strlit("/");
            }
            r.append("/");
        }
    }
    r.append(name);
    assert(r@ =~= joined(dir@, name@));
    r
}

/// The file name of the artifact of the session `id`: `<id>.wav`.
pub fn artifact_file_name(id: &str) -> (r: String)
    ensures
        r@ == artifact_name(id@),
{
    let mut r = String::new();
    r.append(id);
    proof {
        reveal_strlit(".wav");
    }
    r.append(".wav");
    assert(r@ =~= artifact_name(id@));
    r
}

/// The storage directory for artifacts: the application folder inside the
/// user's download directory `download` when the platform has one, and
/// inside the temporary directory `temp` otherwise. Both are looked up by the
/// caller.
pub fn storage_dir(download: Option<String>, temp: &str) -> (r: String)
    ensures
        r@ == resolved_storage_dir(opt_view(download), temp@),
{
    proof {
        reveal_strlit("ApplesauceCacheNative");
    }
    let folder = "ApplesauceCacheNative";
    assert(folder@ =~= storage_folder());
    match download {
        Some(d) => join_path(d.as_str(), folder),
        None => join_path(temp, folder),
    }
}

/// Resolving the storage directory twice from the same download and temporary
/// directories gives the same path, and that path always ends with the
/// application folder.
pub proof fn lemma_storage_dir_stable(
    download: Option<Seq<char>>,
    temp: Seq<char>,
    download2: Option<Seq<char>>,
    temp2: Seq<char>,
)
    requires
        download == download2,
        temp == temp2,
    ensures
        resolved_storage_dir(download, temp) == resolved_storage_dir(download2, temp2),
        ends_with(resolved_storage_dir(download, temp), storage_folder()),
{
    match download {
        Some(d) => lemma_joined_ends_with(d, storage_folder()),
        None => lemma_joined_ends_with(temp, storage_folder()),
    }
}

} // verus!
