//! Audio handed over as base64 text (a data URL or bare base64): the bytes it
//! holds and the name of the file they are saved under.

use vstd::prelude::*;
use vstd::string::StringSliceAdditionalSpecFns;
use crate::paths::opt_view;

verus! {

/// What `base64`'s standard engine decodes `input` to: the bytes, or the
/// message of the decoding error.
pub uninterp spec fn base64_standard_decoding(input: Seq<u8>) -> Result<Seq<u8>, Seq<char>>;

/// Relies on `base64::Engine::decode` with the standard engine: the result
/// depends on the input bytes alone. The error is handed on as its message.
#[verifier::external_body]
fn decode_base64(input: &[u8]) -> (r: Result<Vec<u8>, String>)
    ensures
        match r {
            Ok(v) => base64_standard_decoding(input@) == Ok::<Seq<u8>, Seq<char>>(v@),
            Err(m) => base64_standard_decoding(input@) == Err::<Seq<u8>, Seq<char>>(m@),
        },
{
    base64::Engine::decode(&base64::engine::general_purpose::STANDARD, input).map_err(
        |e| e.to_string(),
    )
}

/// The byte of `,`.
pub open spec fn comma() -> u8 {
    44
}

/// The part of `s` after its last comma; all of `s` when it has none.
pub open spec fn after_last_comma(s: Seq<u8>) -> Seq<u8>
    decreases s.len(),
{
    if s.len() == 0 {
        s
    } else if s.last() == comma() {
        Seq::empty()
    } else {
        after_last_comma(s.drop_last()).push(s.last())
    }
}

/// The extension of a saved upload: the hint, or `webm` without one.
pub open spec fn upload_extension(ext_hint: Option<Seq<char>>) -> Seq<char> {
    match ext_hint {
        Some(e) => e,
        None => "webm"@,
    }
}

/// The name of a saved upload: `recording_<timestamp>.<extension>`.
pub open spec fn upload_name(timestamp: Seq<char>, ext: Seq<char>) -> Seq<char> {
    "recording_"@ + timestamp + "."@ + ext
}

/// The base64 payload of `data`: what follows the last comma of a data URL,
/// or the whole text when there is no comma.
pub fn data_url_payload(data: &[u8]) -> (r: &[u8])
    ensures
        r@ == after_last_comma(data@),
{
    let n = data.len();
    let mut i: usize = n;
    assert(data@.subrange(0, n as int) =~= data@);
    assert(data@.subrange(n as int, n as int) =~= Seq::<u8>::empty());
    assert(after_last_comma(data@) =~= after_last_comma(data@) + Seq::<u8>::empty());
    while i > 0 && data[i - 1] != 44u8
        invariant
            i <= n == data@.len(),
            after_last_comma(data@) == after_last_comma(data@.subrange(0, i as int))
                + data@.subrange(i as int, n as int),
        decreases i,
    {
        let ghost head = data@.subrange(0, i as int);
        assert(head.drop_last() =~= data@.subrange(0, i - 1));
        assert(after_last_comma(head) == after_last_comma(head.drop_last()).push(data@[i - 1]));
        assert(after_last_comma(head) + data@.subrange(i as int, n as int) =~= after_last_comma(
            data@.subrange(0, i - 1),
        ) + data@.subrange(i - 1, n as int));
        i = i - 1;
    }
    assert(after_last_comma(data@.subrange(0, i as int)) =~= Seq::<u8>::empty());
    assert(after_last_comma(data@) =~= data@.subrange(i as int, n as int));
    vstd::slice::slice_subrange(data, i, n)
}

/// The outcome of decoding an upload, given what the decoder returned: the
/// bytes, or an error that says the audio could not be decoded.
pub fn decoded_audio(decoded: Result<Vec<u8>, String>) -> (r: Result<Vec<u8>, String>)
    ensures
        match decoded {
            Ok(v) => r == Ok::<Vec<u8>, String>(v),
            Err(m) => r matches Err(e) && e@ == "Failed to decode audio: "@ + m@,
        },
{
    match decoded {
        Ok(v) => Ok(v),
        Err(m) => {
            let mut e = String::new();
            e.append("Failed to decode audio: ");
            e.append(m.as_str());
            Err(e)
        },
    }
}

/// The audio bytes that `data` (a data URL or bare base64 text) holds.
pub fn decode_audio(data: &str) -> (r: Result<Vec<u8>, String>)
    ensures
        match base64_standard_decoding(after_last_comma(data.spec_bytes())) {
            Ok(b) => r matches Ok(v) && v@ == b,
            Err(m) => r matches Err(e) && e@ == "Failed to decode audio: "@ + m,
        },
{
    let payload = data_url_payload(data.as_bytes());
    decoded_audio(decode_base64(payload))
}

/// The name a saved upload gets: `recording_<timestamp>.<ext>`, where the
/// extension is `ext_hint`, or `webm` without one.
pub fn audio_file_name(timestamp: &str, ext_hint: Option<String>) -> (r: String)
    ensures
        r@ == upload_name(timestamp@, upload_extension(opt_view(ext_hint))),
{
    let ghost hint = opt_view(ext_hint);
    let mut r = String::new();
    r.append("recording_");
    r.append(timestamp);
    r.append(".");
    match ext_hint {
        Some(e) => r.append(e.as_str()),
        None => r.append("webm"),
    }
    assert(r@ =~= upload_name(timestamp@, upload_extension(hint)));
    r
}

/// Decodes an upload and names the file it is saved under, stamped with
/// `timestamp`. Fails, with the decoder's message, when the payload is not
/// valid base64.
pub fn prepare_audio_save(base64_data: &str, ext_hint: Option<String>, timestamp: &str) -> (r:
    Result<(Vec<u8>, String), String>)
    ensures
        match base64_standard_decoding(after_last_comma(base64_data.spec_bytes())) {
            Ok(b) => r matches Ok((v, name)) && v@ == b && name@ == upload_name(
                timestamp@,
                upload_extension(opt_view(ext_hint)),
            ),
            Err(m) => r matches Err(e) && e@ == "Failed to decode audio: "@ + m,
        },
{
    let bytes = match decode_audio(base64_data) {
        Ok(b) => b,
        Err(e) => return Err(e),
    };
    let name = audio_file_name(timestamp, ext_hint);
    Ok((bytes, name))
}

} // verus!
