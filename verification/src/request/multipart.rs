//! Verified multipart form assembly, at the byte level. A request that
//! carries files travels as `multipart/form-data`: one part per file, named
//! by its position, then the JSON payload part, then the closing boundary.
//! Every byte of the form is pinned down exactly.

use vstd::prelude::*;
use vstd::string::StringSliceAdditionalSpecFns;
use crate::request::json_body::{dec_bytes, extend_bytes, jnum};

verus! {

/// One file part: the boundary line, a content-disposition naming the
/// file's position and filename, a blank line, the bytes, a line break.
pub open spec fn file_part_bytes(
    boundary: Seq<u8>,
    index: nat,
    filename: Seq<u8>,
    bytes: Seq<u8>,
) -> Seq<u8> {
    "--".spec_bytes() + boundary + "\r\nContent-Disposition: form-data; name=\"".spec_bytes()
        + dec_bytes(index) + "\"; filename=\"".spec_bytes() + filename + "\"\r\n\r\n".spec_bytes()
        + bytes + "\r\n".spec_bytes()
}

/// The payload part: the boundary line, the payload's content-disposition,
/// a blank line, the JSON bytes, a line break.
pub open spec fn payload_part_bytes(boundary: Seq<u8>, payload: Seq<u8>) -> Seq<u8> {
    "--".spec_bytes() + boundary
        + "\r\nContent-Disposition: form-data; name=\"payload_json\"\r\n\r\n".spec_bytes()
        + payload + "\r\n".spec_bytes()
}

/// The file parts of a form, numbered from `index` on.
pub open spec fn file_parts_bytes(
    boundary: Seq<u8>,
    files: Seq<(String, Vec<u8>)>,
    index: nat,
) -> Seq<u8>
    decreases files.len(),
{
    if files.len() == 0 {
        Seq::empty()
    } else {
        file_part_bytes(
            boundary,
            index,
            vstd::utf8::encode_utf8(files[0].0@),
            files[0].1@,
        ) + file_parts_bytes(boundary, files.drop_first(), index + 1)
    }
}

/// Appending a file appends its part, numbered after the others.
pub proof fn lemma_file_parts_push(
    boundary: Seq<u8>,
    files: Seq<(String, Vec<u8>)>,
    x: (String, Vec<u8>),
    index: nat,
)
    ensures
        file_parts_bytes(boundary, files.push(x), index) == file_parts_bytes(
            boundary,
            files,
            index,
        ) + file_part_bytes(
            boundary,
            index + files.len(),
            vstd::utf8::encode_utf8(x.0@),
            x.1@,
        ),
    decreases files.len(),
{
    assert(file_parts_bytes(boundary, files.push(x), index) == file_part_bytes(
        boundary,
        index,
        vstd::utf8::encode_utf8(files.push(x)[0].0@),
        files.push(x)[0].1@,
    ) + file_parts_bytes(boundary, files.push(x).drop_first(), index + 1));
    if files.len() == 0 {
        assert(files.push(x).drop_first() =~= Seq::<(String, Vec<u8>)>::empty());
        assert(files.push(x)[0] == x);
        assert(file_parts_bytes(boundary, Seq::<(String, Vec<u8>)>::empty(), index + 1)
            == Seq::<u8>::empty());
        assert(file_parts_bytes(boundary, files.push(x), index) =~= file_parts_bytes(
            boundary,
            files,
            index,
        ) + file_part_bytes(boundary, index, vstd::utf8::encode_utf8(x.0@), x.1@));
    } else {
        lemma_file_parts_push(boundary, files.drop_first(), x, index + 1);
        assert(files.push(x).drop_first() =~= files.drop_first().push(x));
        assert(files.push(x)[0] == files[0]);
        assert(file_parts_bytes(boundary, files.push(x), index) =~= file_parts_bytes(
            boundary,
            files,
            index,
        ) + file_part_bytes(
            boundary,
            index + files.len(),
            vstd::utf8::encode_utf8(x.0@),
            x.1@,
        ));
    }
}

/// A whole form: the file parts from position zero, the payload part when a
/// payload is given, then the closing boundary.
pub open spec fn form_bytes(
    boundary: Seq<u8>,
    files: Seq<(String, Vec<u8>)>,
    payload: Option<Seq<u8>>,
) -> Seq<u8> {
    file_parts_bytes(boundary, files, 0) + (match payload {
        Option::Some(p) => payload_part_bytes(boundary, p),
        Option::None => Seq::empty(),
    }) + "--".spec_bytes() + boundary + "--\r\n".spec_bytes()
}

fn extend_str_bytes(dst: &mut Vec<u8>, s: &str)
    ensures
        final(dst)@ == old(dst)@ + s.spec_bytes(),
{
    let bytes = s.as_bytes_vec();
    extend_bytes(dst, &bytes);
}

/// Assemble one file part.
fn file_part(boundary: &str, index: u64, filename: &str, bytes: &Vec<u8>) -> (r: Vec<u8>)
    ensures
        r@ == file_part_bytes(
            boundary.spec_bytes(),
            index as nat,
            filename.spec_bytes(),
            bytes@,
        ),
{
    let mut out: Vec<u8> = Vec::new();
    extend_str_bytes(&mut out, "--");
    extend_str_bytes(&mut out, boundary);
    extend_str_bytes(&mut out, "\r\nContent-Disposition: form-data; name=\"");
    let digits = jnum(index);
    extend_bytes(&mut out, &digits);
    extend_str_bytes(&mut out, "\"; filename=\"");
    extend_str_bytes(&mut out, filename);
    extend_str_bytes(&mut out, "\"\r\n\r\n");
    extend_bytes(&mut out, bytes);
    extend_str_bytes(&mut out, "\r\n");
    proof {
        assert(out@ =~= file_part_bytes(
            boundary.spec_bytes(),
            index as nat,
            filename.spec_bytes(),
            bytes@,
        ));
    }
    out
}

/// Assemble a multipart form from its files and optional JSON payload.
///
/// The caller supplies the boundary and must send the form under the
/// content type [`form_content_type`] builds for the same boundary.
pub fn multipart_form(
    boundary: &str,
    files: &Vec<(String, Vec<u8>)>,
    payload: Option<&Vec<u8>>,
) -> (r: Vec<u8>)
    requires
        files@.len() <= u64::MAX,
    ensures
        r@ == form_bytes(
            boundary.spec_bytes(),
            files@,
            match payload {
                Some(p) => Some(p@),
                None => None,
            },
        ),
{
    let n = files.len();
    let mut out: Vec<u8> = Vec::new();
    let mut i: usize = 0;
    while i < n
        invariant
            0 <= i <= n,
            n == files@.len(),
            n <= u64::MAX,
            out@ == file_parts_bytes(boundary.spec_bytes(), files@.subrange(0, i as int), 0),
        decreases n - i,
    {
        proof {
            assert(files@.subrange(0, i as int + 1) =~= files@.subrange(0, i as int).push(
                files@[i as int],
            ));
            lemma_file_parts_push(
                boundary.spec_bytes(),
                files@.subrange(0, i as int),
                files@[i as int],
                0,
            );
        }
        let fname = files[i].0.as_str();
        let part = file_part(boundary, i as u64, fname, &files[i].1);
        extend_bytes(&mut out, &part);
        i = i + 1;
    }
    proof {
        assert(files@.subrange(0, n as int) =~= files@);
    }
    match payload {
        Some(p) => {
            let ghost before = out@;
            extend_str_bytes(&mut out, "--");
            extend_str_bytes(&mut out, boundary);
            extend_str_bytes(
                &mut out,
                "\r\nContent-Disposition: form-data; name=\"payload_json\"\r\n\r\n",
            );
            extend_bytes(&mut out, p);
            extend_str_bytes(&mut out, "\r\n");
            proof {
                assert(out@ =~= before + payload_part_bytes(boundary.spec_bytes(), p@));
            }
        },
        None => {},
    }
    extend_str_bytes(&mut out, "--");
    extend_str_bytes(&mut out, boundary);
    extend_str_bytes(&mut out, "--\r\n");
    proof {
        assert(out@ =~= form_bytes(
            boundary.spec_bytes(),
            files@,
            match payload {
                Some(p) => Some(p@),
                None => None,
            },
        ));
    }
    out
}

/// The content type a form must travel under: the multipart media type
/// naming its boundary.
pub fn form_content_type(boundary: &str) -> (r: String)
    ensures
        r@ == "multipart/form-data; boundary="@ + boundary@,
{
    let r = "multipart/form-data; boundary=".to_owned().concat(boundary);
    proof {
        assert(r@ =~= "multipart/form-data; boundary="@ + boundary@);
    }
    r
}

} // verus!
