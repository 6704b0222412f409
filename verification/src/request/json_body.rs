//! A small verified JSON writer, at the byte level. Request bodies are
//! flat-to-shallow JSON objects; each piece's bytes are pinned down exactly,
//! so a builder's contract states its body byte for byte. Escaping works on
//! UTF-8 bytes: quote, backslash and control bytes are escaped, and
//! multi-byte sequences pass through untouched.

use vstd::prelude::*;
use vstd::string::StringSliceAdditionalSpecFns;

verus! {

/// Uppercase hexadecimal digit byte for a value below sixteen.
pub open spec fn hex_byte(d: int) -> u8 {
    if d < 10 {
        (48 + d) as u8
    } else {
        (55 + d) as u8
    }
}

/// The escape of one byte inside a JSON string: quote and backslash gain a
/// backslash, control bytes become `\u00XX`, everything else passes.
pub open spec fn esc_byte(b: u8) -> Seq<u8> {
    if b == 34 {
        seq![92u8, 34u8]
    } else if b == 92 {
        seq![92u8, 92u8]
    } else if b < 32 {
        seq![92u8, 117u8, 48u8, 48u8, hex_byte(b as int / 16), hex_byte(b as int % 16)]
    } else {
        seq![b]
    }
}

/// A byte string escaped for the inside of a JSON string.
pub open spec fn json_escape_bytes(s: Seq<u8>) -> Seq<u8>
    decreases s.len(),
{
    if s.len() == 0 {
        Seq::empty()
    } else {
        esc_byte(s[0]) + json_escape_bytes(s.drop_first())
    }
}

/// Appending a byte appends its escape.
pub proof fn lemma_json_escape_push(s: Seq<u8>, x: u8)
    ensures
        json_escape_bytes(s.push(x)) == json_escape_bytes(s) + esc_byte(x),
    decreases s.len(),
{
    if s.len() == 0 {
        assert(s.push(x).drop_first() =~= Seq::<u8>::empty());
        assert(s.push(x)[0] == x);
        assert(json_escape_bytes(Seq::<u8>::empty()) == Seq::<u8>::empty());
        assert(json_escape_bytes(s.push(x)) =~= json_escape_bytes(s) + esc_byte(x));
    } else {
        lemma_json_escape_push(s.drop_first(), x);
        assert(s.push(x).drop_first() =~= s.drop_first().push(x));
        assert(s.push(x)[0] == s[0]);
        assert(json_escape_bytes(s.push(x)) =~= json_escape_bytes(s) + esc_byte(x));
    }
}

/// A JSON string: a quote, the escaped bytes, a quote.
pub open spec fn json_string_bytes(s: Seq<u8>) -> Seq<u8> {
    seq![34u8] + json_escape_bytes(s) + seq![34u8]
}

/// Append one vector of bytes to another.
pub fn extend_bytes(dst: &mut Vec<u8>, src: &Vec<u8>)
    ensures
        final(dst)@ == old(dst)@ + src@,
{
    let n = src.len();
    let mut i: usize = 0;
    while i < n
        invariant
            0 <= i <= n,
            n == src@.len(),
            dst@ =~= old(dst)@ + src@.subrange(0, i as int),
        decreases n - i,
    {
        proof {
            assert(src@.subrange(0, i as int + 1) =~= src@.subrange(0, i as int).push(
                src@[i as int],
            ));
        }
        dst.push(src[i]);
        i = i + 1;
    }
    proof {
        assert(src@.subrange(0, n as int) =~= src@);
    }
}

/// Escape a byte string for the inside of a JSON string.
pub fn escape_bytes(s: &Vec<u8>) -> (r: Vec<u8>)
    ensures
        r@ == json_escape_bytes(s@),
{
    let n = s.len();
    let mut out: Vec<u8> = Vec::new();
    let mut i: usize = 0;
    while i < n
        invariant
            0 <= i <= n,
            n == s@.len(),
            out@ == json_escape_bytes(s@.subrange(0, i as int)),
        decreases n - i,
    {
        proof {
            assert(s@.subrange(0, i as int + 1) =~= s@.subrange(0, i as int).push(s@[i as int]));
            lemma_json_escape_push(s@.subrange(0, i as int), s@[i as int]);
        }
        let b = s[i];
        if b == 34 {
            out.push(92);
            out.push(34);
        } else if b == 92 {
            out.push(92);
            out.push(92);
        } else if b < 32 {
            out.push(92);
            out.push(117);
            out.push(48);
            out.push(48);
            let hi = b / 16;
            let lo = b % 16;
            out.push(
                if hi < 10 {
                    48 + hi
                } else {
                    55 + hi
                },
            );
            out.push(
                if lo < 10 {
                    48 + lo
                } else {
                    55 + lo
                },
            );
        } else {
            out.push(b);
        }
        proof {
            assert(out@ =~= json_escape_bytes(s@.subrange(0, i as int + 1)));
        }
        i = i + 1;
    }
    proof {
        assert(s@.subrange(0, n as int) =~= s@);
    }
    out
}

/// A JSON string value from raw bytes.
pub fn jstr_bytes(s: &Vec<u8>) -> (r: Vec<u8>)
    ensures
        r@ == json_string_bytes(s@),
{
    let mut out: Vec<u8> = Vec::new();
    out.push(34);
    let escaped = escape_bytes(s);
    extend_bytes(&mut out, &escaped);
    out.push(34);
    proof {
        assert(out@ =~= json_string_bytes(s@));
    }
    out
}

/// A JSON string value from a string's UTF-8 bytes.
pub fn jstr(s: &str) -> (r: Vec<u8>)
    ensures
        r@ == json_string_bytes(s.spec_bytes()),
{
    let bytes = s.as_bytes_vec();
    jstr_bytes(&bytes)
}

/// Decimal digit bytes of a number, most significant first.
pub open spec fn dec_bytes(n: nat) -> Seq<u8>
    decreases n,
{
    if n < 10 {
        seq![(48 + n) as u8]
    } else {
        dec_bytes(n / 10) + seq![(48 + n % 10) as u8]
    }
}

/// A JSON number value: the plain decimal digits.
pub fn jnum(n: u64) -> (r: Vec<u8>)
    ensures
        r@ == dec_bytes(n as nat),
    decreases n,
{
    if n < 10 {
        let mut out: Vec<u8> = Vec::new();
        out.push(48 + (n as u8));
        proof {
            assert(out@ =~= dec_bytes(n as nat));
        }
        out
    } else {
        let mut out = jnum(n / 10);
        out.push(48 + ((n % 10) as u8));
        proof {
            assert(out@ =~= dec_bytes(n as nat));
        }
        out
    }
}

/// An id as the platform carries it in JSON: the decimal digits inside a
/// string.
pub fn jid(n: u64) -> (r: Vec<u8>)
    ensures
        r@ == json_string_bytes(dec_bytes(n as nat)),
{
    let digits = jnum(n);
    jstr_bytes(&digits)
}

/// The JSON `true` or `false` literal.
pub open spec fn json_bool_bytes(b: bool) -> Seq<u8> {
    if b {
        seq![116u8, 114u8, 117u8, 101u8]
    } else {
        seq![102u8, 97u8, 108u8, 115u8, 101u8]
    }
}

/// A JSON boolean value.
pub fn jbool(b: bool) -> (r: Vec<u8>)
    ensures
        r@ == json_bool_bytes(b),
{
    let mut out: Vec<u8> = Vec::new();
    if b {
        out.push(116);
        out.push(114);
        out.push(117);
        out.push(101);
    } else {
        out.push(102);
        out.push(97);
        out.push(108);
        out.push(115);
        out.push(101);
    }
    proof {
        assert(out@ =~= json_bool_bytes(b));
    }
    out
}

/// The JSON `null` literal.
pub open spec fn json_null_bytes() -> Seq<u8> {
    seq![110u8, 117u8, 108u8, 108u8]
}

/// A JSON null value.
pub fn jnull() -> (r: Vec<u8>)
    ensures
        r@ == json_null_bytes(),
{
    let mut out: Vec<u8> = Vec::new();
    out.push(110);
    out.push(117);
    out.push(108);
    out.push(108);
    proof {
        assert(out@ =~= json_null_bytes());
    }
    out
}

/// One object member: the quoted key, a colon, the encoded value.
pub open spec fn json_member_bytes(m: (Seq<u8>, Seq<u8>)) -> Seq<u8> {
    json_string_bytes(m.0) + seq![58u8] + m.1
}

/// The members after the first, each preceded by a comma.
pub open spec fn json_members_tail(ms: Seq<(Seq<u8>, Seq<u8>)>) -> Seq<u8>
    decreases ms.len(),
{
    if ms.len() == 0 {
        Seq::empty()
    } else {
        seq![44u8] + json_member_bytes(ms[0]) + json_members_tail(ms.drop_first())
    }
}

/// A JSON object over its members, in order.
pub open spec fn json_object_bytes(ms: Seq<(Seq<u8>, Seq<u8>)>) -> Seq<u8> {
    if ms.len() == 0 {
        seq![123u8, 125u8]
    } else {
        seq![123u8] + json_member_bytes(ms[0]) + json_members_tail(ms.drop_first()) + seq![125u8]
    }
}

/// Appending a member appends a comma and the member.
pub proof fn lemma_json_members_tail_push(ms: Seq<(Seq<u8>, Seq<u8>)>, x: (Seq<u8>, Seq<u8>))
    ensures
        json_members_tail(ms.push(x)) == json_members_tail(ms) + seq![44u8] + json_member_bytes(x),
    decreases ms.len(),
{
    assert(json_members_tail(ms.push(x)) == seq![44u8] + json_member_bytes(ms.push(x)[0])
        + json_members_tail(ms.push(x).drop_first()));
    if ms.len() == 0 {
        assert(ms.push(x).drop_first() =~= Seq::<(Seq<u8>, Seq<u8>)>::empty());
        assert(ms.push(x)[0] == x);
        assert(json_members_tail(Seq::<(Seq<u8>, Seq<u8>)>::empty()) == Seq::<u8>::empty());
        assert(json_members_tail(ms.push(x)) =~= json_members_tail(ms) + seq![44u8]
            + json_member_bytes(x));
    } else {
        lemma_json_members_tail_push(ms.drop_first(), x);
        assert(ms.push(x).drop_first() =~= ms.drop_first().push(x));
        assert(ms.push(x)[0] == ms[0]);
        assert(json_members_tail(ms.push(x)) =~= json_members_tail(ms) + seq![44u8]
            + json_member_bytes(x));
    }
}

/// The view of an exec member list.
pub open spec fn members_view(ms: Seq<(Vec<u8>, Vec<u8>)>) -> Seq<(Seq<u8>, Seq<u8>)> {
    ms.map_values(|m: (Vec<u8>, Vec<u8>)| (m.0@, m.1@))
}

/// Assemble a JSON object from its members: each a raw key and an
/// already-encoded value.
pub fn json_object(ms: &Vec<(Vec<u8>, Vec<u8>)>) -> (r: Vec<u8>)
    ensures
        r@ == json_object_bytes(members_view(ms@)),
{
    let n = ms.len();
    let mut out: Vec<u8> = Vec::new();
    out.push(123);
    if n == 0 {
        out.push(125);
        proof {
            assert(members_view(ms@).len() == 0);
            assert(out@ =~= json_object_bytes(members_view(ms@)));
        }
        return out;
    }
    let first = jstr_bytes(&ms[0].0);
    extend_bytes(&mut out, &first);
    out.push(58);
    extend_bytes(&mut out, &ms[0].1);
    proof {
        assert(members_view(ms@)[0] == (ms@[0].0@, ms@[0].1@));
        assert(members_view(ms@.subrange(0, 1)).drop_first() =~= Seq::<(Seq<u8>, Seq<u8>)>::empty());
        assert(out@ =~= seq![123u8] + json_member_bytes(members_view(ms@)[0]) + json_members_tail(
            members_view(ms@.subrange(0, 1)).drop_first(),
        ));
    }
    let mut i: usize = 1;
    while i < n
        invariant
            1 <= i <= n,
            n == ms@.len(),
            out@ == seq![123u8] + json_member_bytes(members_view(ms@)[0]) + json_members_tail(
                members_view(ms@.subrange(0, i as int)).drop_first(),
            ),
        decreases n - i,
    {
        proof {
            let pre = members_view(ms@.subrange(0, i as int)).drop_first();
            let next = members_view(ms@.subrange(0, i as int + 1)).drop_first();
            assert(next =~= pre.push((ms@[i as int].0@, ms@[i as int].1@)));
            lemma_json_members_tail_push(pre, (ms@[i as int].0@, ms@[i as int].1@));
        }
        out.push(44);
        let key = jstr_bytes(&ms[i].0);
        extend_bytes(&mut out, &key);
        out.push(58);
        extend_bytes(&mut out, &ms[i].1);
        proof {
            assert(out@ =~= seq![123u8] + json_member_bytes(members_view(ms@)[0])
                + json_members_tail(members_view(ms@.subrange(0, i as int + 1)).drop_first()));
        }
        i = i + 1;
    }
    out.push(125);
    proof {
        assert(ms@.subrange(0, n as int) =~= ms@);
        assert(out@ =~= json_object_bytes(members_view(ms@)));
    }
    out
}

/// A JSON array of ids, each a decimal string.
pub fn jid_array(ids: &Vec<u64>) -> (r: Vec<u8>)
    ensures
        r@ == json_array_bytes(
            ids@.map_values(|id: u64| json_string_bytes(dec_bytes(id as nat))),
        ),
{
    let n = ids.len();
    let mut items: Vec<Vec<u8>> = Vec::new();
    let mut i: usize = 0;
    while i < n
        invariant
            0 <= i <= n,
            n == ids@.len(),
            items@.len() == i,
            forall|j: int|
                0 <= j < i ==> (#[trigger] items@[j])@ == json_string_bytes(
                    dec_bytes(ids@[j] as nat),
                ),
        decreases n - i,
    {
        items.push(jid(ids[i]));
        i = i + 1;
    }
    proof {
        assert(items_view(items@) =~= ids@.map_values(
            |id: u64| json_string_bytes(dec_bytes(id as nat)),
        ));
    }
    json_array(&items)
}

/// The items after the first, each preceded by a comma.
pub open spec fn json_items_tail(items: Seq<Seq<u8>>) -> Seq<u8>
    decreases items.len(),
{
    if items.len() == 0 {
        Seq::empty()
    } else {
        seq![44u8] + items[0] + json_items_tail(items.drop_first())
    }
}

/// A JSON array over already-encoded items, in order.
pub open spec fn json_array_bytes(items: Seq<Seq<u8>>) -> Seq<u8> {
    if items.len() == 0 {
        seq![91u8, 93u8]
    } else {
        seq![91u8] + items[0] + json_items_tail(items.drop_first()) + seq![93u8]
    }
}

/// Appending an item appends a comma and the item.
pub proof fn lemma_json_items_tail_push(items: Seq<Seq<u8>>, x: Seq<u8>)
    ensures
        json_items_tail(items.push(x)) == json_items_tail(items) + seq![44u8] + x,
    decreases items.len(),
{
    assert(json_items_tail(items.push(x)) == seq![44u8] + items.push(x)[0] + json_items_tail(
        items.push(x).drop_first(),
    ));
    if items.len() == 0 {
        assert(items.push(x).drop_first() =~= Seq::<Seq<u8>>::empty());
        assert(items.push(x)[0] == x);
        assert(json_items_tail(Seq::<Seq<u8>>::empty()) == Seq::<u8>::empty());
        assert(json_items_tail(items.push(x)) =~= json_items_tail(items) + seq![44u8] + x);
    } else {
        lemma_json_items_tail_push(items.drop_first(), x);
        assert(items.push(x).drop_first() =~= items.drop_first().push(x));
        assert(items.push(x)[0] == items[0]);
        assert(json_items_tail(items.push(x)) =~= json_items_tail(items) + seq![44u8] + x);
    }
}

/// The view of an exec item list.
pub open spec fn items_view(items: Seq<Vec<u8>>) -> Seq<Seq<u8>> {
    items.map_values(|v: Vec<u8>| v@)
}

/// Assemble a JSON array from already-encoded items.
pub fn json_array(items: &Vec<Vec<u8>>) -> (r: Vec<u8>)
    ensures
        r@ == json_array_bytes(items_view(items@)),
{
    let n = items.len();
    let mut out: Vec<u8> = Vec::new();
    out.push(91);
    if n == 0 {
        out.push(93);
        proof {
            assert(items_view(items@).len() == 0);
            assert(out@ =~= json_array_bytes(items_view(items@)));
        }
        return out;
    }
    extend_bytes(&mut out, &items[0]);
    proof {
        assert(items_view(items@.subrange(0, 1)).drop_first() =~= Seq::<Seq<u8>>::empty());
        assert(out@ =~= seq![91u8] + items_view(items@)[0] + json_items_tail(
            items_view(items@.subrange(0, 1)).drop_first(),
        ));
    }
    let mut i: usize = 1;
    while i < n
        invariant
            1 <= i <= n,
            n == items@.len(),
            out@ == seq![91u8] + items_view(items@)[0] + json_items_tail(
                items_view(items@.subrange(0, i as int)).drop_first(),
            ),
        decreases n - i,
    {
        proof {
            let pre = items_view(items@.subrange(0, i as int)).drop_first();
            let next = items_view(items@.subrange(0, i as int + 1)).drop_first();
            assert(next =~= pre.push(items@[i as int]@));
            lemma_json_items_tail_push(pre, items@[i as int]@);
        }
        out.push(44);
        extend_bytes(&mut out, &items[i]);
        proof {
            assert(out@ =~= seq![91u8] + items_view(items@)[0] + json_items_tail(
                items_view(items@.subrange(0, i as int + 1)).drop_first(),
            ));
        }
        i = i + 1;
    }
    out.push(93);
    proof {
        assert(items@.subrange(0, n as int) =~= items@);
        assert(out@ =~= json_array_bytes(items_view(items@)));
    }
    out
}

} // verus!
