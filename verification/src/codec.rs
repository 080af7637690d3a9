//! Decoding of the upload endpoint's JSON response into the library's
//! records, and the encoding of those records back into JSON text.
//!
//! The decode side walks a parsed document (the parsing itself is the
//! structured-decode capability's, see [`crate::json`]); the encode side
//! writes the text directly and is specified character by character.

use vstd::prelude::*;
use vstd::string::StringExecFns;

use crate::error::Error;
use crate::json::{json_of, parse_json, value_data, value_get, JsonData};
use crate::model::{FileUploadResponse, FileUploadResponseView, UploadedFile, UploadedFileView};

verus! {

/// The record a JSON value stands for under the uploaded-file schema: an
/// object whose `hash` and `url` are strings, whose `size` is an unsigned
/// 64-bit integer, and whose `name`, if present at all, is a string or
/// `null`. Any other value stands for no record.
pub open spec fn spec_decode_file(j: JsonData) -> Option<UploadedFileView> {
    match j {
        JsonData::Obj(m) => {
            if m.contains_key("hash"@) && m["hash"@] is Str && m.contains_key("size"@)
                && m["size"@] is UInt && m.contains_key("url"@) && m["url"@] is Str && (
            !m.contains_key("name"@) || m["name"@] is Null || m["name"@] is Str) {
                Some(
                    UploadedFileView {
                        hash: m["hash"@]->Str_0,
                        name: if m.contains_key("name"@) && m["name"@] is Str {
                            Some(m["name"@]->Str_0)
                        } else {
                            None
                        },
                        size: m["size"@]->UInt_0,
                        url: m["url"@]->Str_0,
                    },
                )
            } else {
                None
            }
        },
        _ => None,
    }
}

/// The records a sequence of JSON values stands for, when every one of
/// them stands for a record.
pub open spec fn spec_decode_files(a: Seq<JsonData>) -> Option<Seq<UploadedFileView>> {
    if forall|i: int| 0 <= i < a.len() ==> (#[trigger] spec_decode_file(a[i])) is Some {
        Some(Seq::new(a.len(), |i: int| spec_decode_file(a[i])->Some_0))
    } else {
        None
    }
}

/// The response a parse outcome stands for under the upload-response
/// schema: an object whose `success` is a boolean and whose `files` is an
/// array of records. Other members are ignored; anything else — including
/// a text that did not parse — stands for no response.
pub open spec fn spec_decode_response(j: Option<JsonData>) -> Option<FileUploadResponseView> {
    match j {
        Some(JsonData::Obj(m)) => {
            if m.contains_key("success"@) && m["success"@] is Bool && m.contains_key("files"@)
                && m["files"@] is Arr {
                match spec_decode_files(m["files"@]->Arr_0) {
                    Some(fs) => Some(
                        FileUploadResponseView { files: fs, success: m["success"@]->Bool_0 },
                    ),
                    None => None,
                }
            } else {
                None
            }
        },
        _ => None,
    }
}

/// The failure every body that does not match the schema is answered with.
fn schema_error() -> (e: Error)
    ensures
        e is Json,
{
    Error::Json(String::from_str("response body does not match the upload response schema"))
}

/// Decodes one element of the `files` array.
fn decode_file(v: &serde_json::Value) -> (r: Result<UploadedFile, Error>)
    ensures
        r matches Ok(f) ==> spec_decode_file(value_data(*v)) == Some(f@),
        r matches Err(e) ==> spec_decode_file(value_data(*v)) is None && e is Json,
{
    let hash = match value_get(v, "hash") {
        Some(hv) => match hv.as_str() {
            Some(s) => s.to_owned(),
            None => {
                return Err(schema_error());
            },
        },
        None => {
            return Err(schema_error());
        },
    };
    let size = match value_get(v, "size") {
        Some(sv) => match sv.as_u64() {
            Some(n) => n,
            None => {
                return Err(schema_error());
            },
        },
        None => {
            return Err(schema_error());
        },
    };
    let url = match value_get(v, "url") {
        Some(uv) => match uv.as_str() {
            Some(s) => s.to_owned(),
            None => {
                return Err(schema_error());
            },
        },
        None => {
            return Err(schema_error());
        },
    };
    let name = match value_get(v, "name") {
        Some(nv) => if nv.is_null() {
            None
        } else {
            match nv.as_str() {
                Some(s) => Some(s.to_owned()),
                None => {
                    return Err(schema_error());
                },
            }
        },
        None => None,
    };
    let f = UploadedFile { hash, name, size, url };
    proof {
        assert(f@ =~= spec_decode_file(value_data(*v))->Some_0);
    }
    Ok(f)
}

/// Decodes an upload response body. A body whose parse stands for a
/// response under the schema yields exactly that response; any other body
/// is answered with [`Error::Json`].
#[verifier::loop_isolation(false)]
pub fn decode_upload_response(body: &str) -> (r: Result<FileUploadResponse, Error>)
    ensures
        spec_decode_response(json_of(body@)) matches Some(m) ==> (r matches Ok(resp) && resp@
            == m),
        spec_decode_response(json_of(body@)) is None ==> (r matches Err(e) && e is Json),
{
    let v = match parse_json(body) {
        Ok(v) => v,
        Err(m) => {
            return Err(Error::Json(m));
        },
    };
    let success = match value_get(&v, "success") {
        Some(sv) => match sv.as_bool() {
            Some(b) => b,
            None => {
                return Err(schema_error());
            },
        },
        None => {
            return Err(schema_error());
        },
    };
    let arr = match value_get(&v, "files") {
        Some(fv) => match fv.as_array() {
            Some(a) => a,
            None => {
                return Err(schema_error());
            },
        },
        None => {
            return Err(schema_error());
        },
    };
    let ghost a: Seq<JsonData> = value_data(v)->Obj_0["files"@]->Arr_0;
    let mut files: Vec<UploadedFile> = Vec::new();
    let mut i: usize = 0;
    while i < arr.len()
        invariant
            i <= a.len(),
            files@.len() == i,
            forall|k: int| 0 <= k < i ==> (#[trigger] spec_decode_file(a[k])) is Some,
            forall|k: int| 0 <= k < i ==> #[trigger] files@[k]@ == spec_decode_file(a[k])->Some_0,
        decreases a.len() - i,
    {
        let f = match decode_file(&arr[i]) {
            Ok(f) => f,
            Err(e) => {
                proof {
                    assert(spec_decode_files(a) is None);
                }
                return Err(e);
            },
        };
        files.push(f);
        i += 1;
    }
    let resp = FileUploadResponse { files, success };
    proof {
        let fs = spec_decode_files(a)->Some_0;
        assert(resp@.files =~= fs);
        assert(resp@ =~= spec_decode_response(json_of(body@))->Some_0);
    }
    Ok(resp)
}

/// The decimal digit `d` as a character.
pub open spec fn spec_digit(d: int) -> char {
    if d == 0 {
        '0'
    } else if d == 1 {
        '1'
    } else if d == 2 {
        '2'
    } else if d == 3 {
        '3'
    } else if d == 4 {
        '4'
    } else if d == 5 {
        '5'
    } else if d == 6 {
        '6'
    } else if d == 7 {
        '7'
    } else if d == 8 {
        '8'
    } else {
        '9'
    }
}

/// The hexadecimal digit `d` as a lower-case character.
pub open spec fn spec_hex_digit(d: int) -> char {
    if d < 10 {
        spec_digit(d)
    } else if d == 10 {
        'a'
    } else if d == 11 {
        'b'
    } else if d == 12 {
        'c'
    } else if d == 13 {
        'd'
    } else if d == 14 {
        'e'
    } else {
        'f'
    }
}

/// The decimal notation of `n`, most significant digit first.
pub open spec fn spec_decimal(n: int) -> Seq<char>
    recommends
        n >= 0,
    decreases n,
{
    if n < 10 {
        seq![spec_digit(n)]
    } else {
        spec_decimal(n / 10) + seq![spec_digit(n % 10)]
    }
}

/// What a character contributes to a JSON string literal: quotes and
/// backslashes are escaped, control characters written as an escaped
/// four-digit hexadecimal, and everything else stands as itself.
pub open spec fn spec_escape_char(c: char) -> Seq<char> {
    if c == '"' {
        seq!['\\', '"']
    } else if c == '\\' {
        seq!['\\', '\\']
    } else if (c as int) < 32 {
        seq!['\\', 'u', '0', '0', spec_hex_digit((c as int) / 16), spec_hex_digit((c as int) % 16)]
    } else {
        seq![c]
    }
}

/// The body of the JSON string literal that writes `s`.
pub open spec fn spec_escape(s: Seq<char>) -> Seq<char>
    decreases s.len(),
{
    if s.len() == 0 {
        Seq::empty()
    } else {
        spec_escape_char(s[0]) + spec_escape(s.drop_first())
    }
}

proof fn lemma_escape_push(t: Seq<char>, c: char)
    ensures
        spec_escape(t.push(c)) == spec_escape(t) + spec_escape_char(c),
    decreases t.len(),
{
    if t.len() == 0 {
        assert(t.push(c).len() == 1);
        assert(t.push(c)[0] == c);
        assert(t.push(c).drop_first() =~= Seq::<char>::empty());
        assert(spec_escape(t.push(c)) == spec_escape_char(c) + spec_escape(
            Seq::<char>::empty(),
        ));
        assert(spec_escape(t.push(c)) =~= spec_escape(t) + spec_escape_char(c));
    } else {
        assert(t.push(c).drop_first() =~= t.drop_first().push(c));
        lemma_escape_push(t.drop_first(), c);
        assert(spec_escape(t.push(c)) =~= spec_escape(t) + spec_escape_char(c));
    }
}

fn digit_str(d: u64) -> (r: &'static str)
    requires
        d < 10,
    ensures
        r@ == seq![spec_digit(d as int)],
{
    let r: &'static str = if d == 0 {
        "0"
    } else if d == 1 {
        "1"
    } else if d == 2 {
        "2"
    } else if d == 3 {
        "3"
    } else if d == 4 {
        "4"
    } else if d == 5 {
        "5"
    } else if d == 6 {
        "6"
    } else if d == 7 {
        "7"
    } else if d == 8 {
        "8"
    } else {
        "9"
    };
    proof {
        reveal_strlit("0");
        reveal_strlit("1");
        reveal_strlit("2");
        reveal_strlit("3");
        reveal_strlit("4");
        reveal_strlit("5");
        reveal_strlit("6");
        reveal_strlit("7");
        reveal_strlit("8");
        reveal_strlit("9");
        assert(r@ =~= seq![spec_digit(d as int)]);
    }
    r
}

fn hex_digit_str(d: u32) -> (r: &'static str)
    requires
        d < 16,
    ensures
        r@ == seq![spec_hex_digit(d as int)],
{
    let r: &'static str = if d == 0 {
        "0"
    } else if d == 1 {
        "1"
    } else if d == 2 {
        "2"
    } else if d == 3 {
        "3"
    } else if d == 4 {
        "4"
    } else if d == 5 {
        "5"
    } else if d == 6 {
        "6"
    } else if d == 7 {
        "7"
    } else if d == 8 {
        "8"
    } else if d == 9 {
        "9"
    } else if d == 10 {
        "a"
    } else if d == 11 {
        "b"
    } else if d == 12 {
        "c"
    } else if d == 13 {
        "d"
    } else if d == 14 {
        "e"
    } else {
        "f"
    };
    proof {
        reveal_strlit("0");
        reveal_strlit("1");
        reveal_strlit("2");
        reveal_strlit("3");
        reveal_strlit("4");
        reveal_strlit("5");
        reveal_strlit("6");
        reveal_strlit("7");
        reveal_strlit("8");
        reveal_strlit("9");
        reveal_strlit("a");
        reveal_strlit("b");
        reveal_strlit("c");
        reveal_strlit("d");
        reveal_strlit("e");
        reveal_strlit("f");
        assert(r@ =~= seq![spec_hex_digit(d as int)]);
    }
    r
}

/// Writes `n` in decimal.
fn u64_decimal(n: u64) -> (r: String)
    ensures
        r@ == spec_decimal(n as int),
    decreases n,
{
    if n < 10 {
        String::from_str(digit_str(n))
    } else {
        let mut r = u64_decimal(n / 10);
        r.append(digit_str(n % 10));
        proof {
            assert(r@ =~= spec_decimal(n as int));
        }
        r
    }
}

/// Writes the body of the JSON string literal for `s`.
fn escape_json_string(s: &str) -> (r: String)
    ensures
        r@ == spec_escape(s@),
{
    let n = s.unicode_len();
    let mut out = String::new();
    let mut i: usize = 0;
    while i < n
        invariant
            i <= n,
            n == s@.len(),
            out@ == spec_escape(s@.take(i as int)),
        decreases n - i,
    {
        let c = s.get_char(i);
        if c == '"' {
            out.append("\\\"");
            proof {
                reveal_strlit("\\\"");
                assert(out@ =~= spec_escape(s@.take(i as int)) + spec_escape_char(c));
            }
        } else if c == '\\' {
            out.append("\\\\");
            proof {
                reveal_strlit("\\\\");
                assert(out@ =~= spec_escape(s@.take(i as int)) + spec_escape_char(c));
            }
        } else if (c as u32) < 32 {
            let d = c as u32;
            out.append("\\u00");
            out.append(hex_digit_str(d / 16));
            out.append(hex_digit_str(d % 16));
            proof {
                reveal_strlit("\\u00");
                assert(out@ =~= spec_escape(s@.take(i as int)) + spec_escape_char(c));
            }
        } else {
            let piece = s.substring_char(i, i + 1);
            out.append(piece);
            proof {
                assert(piece@ =~= seq![c]);
                assert(out@ =~= spec_escape(s@.take(i as int)) + spec_escape_char(c));
            }
        }
        proof {
            assert(s@.take(i + 1) =~= s@.take(i as int).push(s@[i as int]));
            lemma_escape_push(s@.take(i as int), s@[i as int]);
        }
        i += 1;
    }
    proof {
        assert(s@.take(n as int) =~= s@);
    }
    out
}

/// The JSON string literal member that writes an optional name: the
/// escaped name in quotes, or `null`.
pub open spec fn spec_name_member(name: Option<Seq<char>>) -> Seq<char> {
    match name {
        Some(n) => "\""@ + spec_escape(n) + "\""@,
        None => "null"@,
    }
}

/// The JSON object that writes one uploaded file.
pub open spec fn spec_encode_file(f: UploadedFileView) -> Seq<char> {
    "{\"hash\":\""@ + spec_escape(f.hash) + "\",\"name\":"@ + spec_name_member(f.name)
        + ",\"size\":"@ + spec_decimal(f.size as int) + ",\"url\":\""@ + spec_escape(f.url) + "\"}"@
}

/// The comma-separated JSON objects that write a sequence of uploaded
/// files, in order.
pub open spec fn spec_encode_files(fs: Seq<UploadedFileView>) -> Seq<char>
    decreases fs.len(),
{
    if fs.len() == 0 {
        Seq::empty()
    } else if fs.len() == 1 {
        spec_encode_file(fs[0])
    } else {
        spec_encode_file(fs[0]) + ","@ + spec_encode_files(fs.drop_first())
    }
}

/// The JSON document that writes a whole upload response.
pub open spec fn spec_encode_response(r: FileUploadResponseView) -> Seq<char> {
    "{\"files\":["@ + spec_encode_files(r.files) + "],\"success\":"@ + (if r.success {
        "true"@
    } else {
        "false"@
    }) + "}"@
}

/// The views of a sequence of uploaded files, elementwise.
pub open spec fn spec_file_views(fs: Seq<UploadedFile>) -> Seq<UploadedFileView> {
    fs.map_values(|f: UploadedFile| f@)
}

fn encode_name_member(name: &Option<String>) -> (r: String)
    ensures
        r@ == spec_name_member(match *name {
            Some(n) => Some(n@),
            None => None,
        }),
{
    match name {
        Some(n) => {
            let mut r = String::from_str("\"");
            let e = escape_json_string(n.as_str());
            r.append(e.as_str());
            r.append("\"");
            r
        },
        None => String::from_str("null"),
    }
}

fn encode_file(f: &UploadedFile) -> (r: String)
    ensures
        r@ == spec_encode_file(f@),
{
    let mut r = String::from_str("{\"hash\":\"");
    let hash = escape_json_string(f.hash.as_str());
    r.append(hash.as_str());
    r.append("\",\"name\":");
    let name = encode_name_member(&f.name);
    r.append(name.as_str());
    r.append(",\"size\":");
    let size = u64_decimal(f.size);
    r.append(size.as_str());
    r.append(",\"url\":\"");
    let url = escape_json_string(f.url.as_str());
    r.append(url.as_str());
    r.append("\"}");
    proof {
        assert(r@ =~= spec_encode_file(f@));
    }
    r
}

fn encode_files_from(files: &Vec<UploadedFile>, i: usize) -> (r: String)
    requires
        i <= files@.len(),
    ensures
        r@ == spec_encode_files(spec_file_views(files@).skip(i as int)),
    decreases files@.len() - i,
{
    let ghost fs = spec_file_views(files@);
    if i >= files.len() {
        proof {
            assert(fs.skip(i as int).len() == 0);
        }
        String::new()
    } else {
        let mut r = encode_file(&files[i]);
        proof {
            assert(fs.skip(i as int)[0] == files@[i as int]@);
            assert(fs.skip(i as int).len() == files@.len() - i);
        }
        if i + 1 < files.len() {
            r.append(",");
            let rest = encode_files_from(files, i + 1);
            r.append(rest.as_str());
            proof {
                assert(fs.skip(i as int).drop_first() =~= fs.skip(i + 1));
                assert(r@ =~= spec_encode_files(fs.skip(i as int)));
            }
        } else {
            proof {
                assert(fs.skip(i as int).len() == 1);
                assert(r@ =~= spec_encode_files(fs.skip(i as int)));
            }
        }
        r
    }
}

/// Encodes an upload response as the JSON document the service itself
/// would answer with: the files in order, then the success flag.
pub fn encode_upload_response(resp: &FileUploadResponse) -> (r: String)
    ensures
        r@ == spec_encode_response(resp@),
{
    let mut r = String::from_str("{\"files\":[");
    let fs = encode_files_from(&resp.files, 0);
    r.append(fs.as_str());
    r.append("],\"success\":");
    if resp.success {
        r.append("true");
    } else {
        r.append("false");
    }
    r.append("}");
    proof {
        assert(spec_file_views(resp.files@).skip(0) =~= resp@.files);
        assert(r@ =~= spec_encode_response(resp@));
    }
    r
}

/// The JSON value that [`spec_encode_file`]'s text writes: an object of
/// exactly the four members of the schema.
pub open spec fn spec_file_json(f: UploadedFileView) -> JsonData {
    JsonData::Obj(
        map![
            "hash"@ => JsonData::Str(f.hash),
            "name"@ => match f.name { Some(n) => JsonData::Str(n), None => JsonData::Null },
            "size"@ => JsonData::UInt(f.size),
            "url"@ => JsonData::Str(f.url),
        ],
    )
}

/// The JSON values of a sequence of uploaded files, elementwise.
pub open spec fn spec_files_json(fs: Seq<UploadedFileView>) -> Seq<JsonData> {
    fs.map_values(|f: UploadedFileView| spec_file_json(f))
}

/// The JSON value that [`spec_encode_response`]'s text writes.
pub open spec fn spec_response_json(r: FileUploadResponseView) -> JsonData {
    JsonData::Obj(
        map![
            "success"@ => JsonData::Bool(r.success),
            "files"@ => JsonData::Arr(spec_files_json(r.files)),
        ],
    )
}

proof fn lemma_file_keys_distinct()
    ensures
        "hash"@ != "name"@,
        "hash"@ != "size"@,
        "hash"@ != "url"@,
        "name"@ != "size"@,
        "name"@ != "url"@,
        "size"@ != "url"@,
        "success"@ != "files"@,
{
    reveal_strlit("hash");
    reveal_strlit("name");
    reveal_strlit("size");
    reveal_strlit("url");
    reveal_strlit("success");
    reveal_strlit("files");
    assert("hash"@[0] != "name"@[0]);
    assert("hash"@[0] != "size"@[0]);
    assert("hash"@.len() != "url"@.len());
    assert("name"@[0] != "size"@[0]);
    assert("name"@.len() != "url"@.len());
    assert("size"@.len() != "url"@.len());
    assert("success"@.len() != "files"@.len());
}

proof fn lemma_file_round_trip(f: UploadedFileView)
    ensures
        spec_decode_file(spec_file_json(f)) == Some(f),
{
    lemma_file_keys_distinct();
    let m = spec_file_json(f)->Obj_0;
    assert(m.contains_key("hash"@));
    assert(m.contains_key("name"@));
    assert(m.contains_key("size"@));
    assert(m.contains_key("url"@));
    assert(m["hash"@] == JsonData::Str(f.hash));
    assert(m["size"@] == JsonData::UInt(f.size));
    assert(m["url"@] == JsonData::Str(f.url));
    match f.name {
        Some(n) => {
            assert(m["name"@] == JsonData::Str(n));
        },
        None => {
            assert(m["name"@] == JsonData::Null);
        },
    }
    assert(spec_decode_file(spec_file_json(f))->Some_0 =~= f);
}

/// LAW: decoding the JSON value that encodes a response yields the
/// response back, for every response. (That the written text parses back
/// to that JSON value is the parser's side of the round trip, which the
/// library takes from the structured-decode capability and exercises in
/// its tests.)
pub proof fn lemma_response_round_trip(r: FileUploadResponseView)
    ensures
        spec_decode_response(Some(spec_response_json(r))) == Some(r),
{
    lemma_file_keys_distinct();
    let m = spec_response_json(r)->Obj_0;
    assert(m.contains_key("success"@));
    assert(m.contains_key("files"@));
    assert(m["success"@] == JsonData::Bool(r.success));
    assert(m["files"@] == JsonData::Arr(spec_files_json(r.files)));
    let a = spec_files_json(r.files);
    assert forall|i: int| 0 <= i < a.len() implies #[trigger] spec_decode_file(a[i]) == Some(
        r.files[i],
    ) by {
        lemma_file_round_trip(r.files[i]);
        assert(a[i] == spec_file_json(r.files[i]));
    }
    assert(spec_decode_files(a) matches Some(fs));
    assert(spec_decode_files(a)->Some_0 =~= r.files);
    assert(spec_decode_response(Some(spec_response_json(r)))->Some_0 =~= r);
}

} // verus!
