use vstd::prelude::*;

verus! {

/// The URL-safe base64 alphabet: `A`-`Z`, `a`-`z`, `0`-`9`, `-`, `_`.
pub open spec fn b64_char(v: u8) -> char {
    if v < 26 {
        ((v + 65) as u8) as char
    } else if v < 52 {
        ((v - 26 + 97) as u8) as char
    } else if v < 62 {
        ((v - 52 + 48) as u8) as char
    } else if v == 62 {
        '-'
    } else {
        '_'
    }
}

/// URL-safe base64 without padding: each 3-byte group becomes 4 characters;
/// a trailing byte becomes 2 characters and a trailing pair becomes 3.
pub open spec fn b64url_of(s: Seq<u8>) -> Seq<char>
    decreases s.len(),
{
    if s.len() == 0 {
        Seq::empty()
    } else if s.len() == 1 {
        let b0 = s[0];
        seq![b64_char(b0 >> 2), b64_char(((b0 & 3) << 4) as u8)]
    } else if s.len() == 2 {
        let b0 = s[0];
        let b1 = s[1];
        seq![
            b64_char(b0 >> 2),
            b64_char((((b0 & 3) << 4) | (b1 >> 4)) as u8),
            b64_char(((b1 & 15) << 2) as u8),
        ]
    } else {
        let b0 = s[0];
        let b1 = s[1];
        let b2 = s[2];
        seq![
            b64_char(b0 >> 2),
            b64_char((((b0 & 3) << 4) | (b1 >> 4)) as u8),
            b64_char((((b1 & 15) << 2) | (b2 >> 6)) as u8),
            b64_char((b2 & 63) as u8),
        ] + b64url_of(s.skip(3))
    }
}

/// Encoding distributes over concatenation when the first part is made of
/// whole 3-byte groups.
pub proof fn lemma_b64url_concat(a: Seq<u8>, b: Seq<u8>)
    requires
        a.len() % 3 == 0,
    ensures
        b64url_of(a + b) == b64url_of(a) + b64url_of(b),
    decreases a.len(),
{
    if a.len() == 0 {
        assert(a + b =~= b);
        assert(b64url_of(a) + b64url_of(b) =~= b64url_of(b));
    } else {
        let ab = a + b;
        assert(a.len() >= 3);
        assert(ab.skip(3) =~= a.skip(3) + b);
        assert(a.skip(3).len() % 3 == 0);
        lemma_b64url_concat(a.skip(3), b);
        if b.len() == 0 {
            assert(ab =~= a);
            assert(b64url_of(a) + b64url_of(b) =~= b64url_of(a));
        } else {
            assert(ab[0] == a[0] && ab[1] == a[1] && ab[2] == a[2]);
            assert(b64url_of(ab) =~= b64url_of(a) + b64url_of(b));
        }
    }
}

/// The four 6-bit values cut out of a 3-byte group are below 64.
proof fn lemma_group_bounds(b0: u8, b1: u8, b2: u8)
    ensures
        (b0 >> 2) < 64,
        (((b0 & 3) << 4) | (b1 >> 4)) < 64,
        (((b1 & 15) << 2) | (b2 >> 6)) < 64,
        (b2 & 63) < 64,
        ((b0 & 3) << 4) < 64,
        ((b1 & 15) << 2) < 64,
{
    assert((b0 >> 2) < 64 && (((b0 & 3) << 4) | (b1 >> 4)) < 64 && (((b1 & 15) << 2) | (b2 >> 6))
        < 64 && (b2 & 63) < 64 && ((b0 & 3) << 4) < 64 && ((b1 & 15) << 2) < 64) by (bit_vector);
}

/// What the encoding yields on exactly three bytes.
proof fn lemma_b64url_of_3(s: Seq<u8>)
    requires
        s.len() == 3,
    ensures
        b64url_of(s) == seq![
            b64_char(s[0] >> 2),
            b64_char((((s[0] & 3) << 4) | (s[1] >> 4)) as u8),
            b64_char((((s[1] & 15) << 2) | (s[2] >> 6)) as u8),
            b64_char((s[2] & 63) as u8),
        ],
{
    assert(s.skip(3) =~= Seq::<u8>::empty());
    assert(b64url_of(s.skip(3)) =~= Seq::<char>::empty());
    assert(b64url_of(s) =~= seq![
        b64_char(s[0] >> 2),
        b64_char((((s[0] & 3) << 4) | (s[1] >> 4)) as u8),
        b64_char((((s[1] & 15) << 2) | (s[2] >> 6)) as u8),
        b64_char((s[2] & 63) as u8),
    ]);
}

/// Return the alphabet character for a 6-bit value.
fn b64_char_exec(v: u8) -> (c: char)
    requires
        v < 64,
    ensures
        c == b64_char(v),
{
    if v < 26 {
        ((v + 65) as u8) as char
    } else if v < 52 {
        ((v - 26 + 97) as u8) as char
    } else if v < 62 {
        ((v - 52 + 48) as u8) as char
    } else if v == 62 {
        '-'
    } else {
        '_'
    }
}

/// Encode bytes as unpadded URL-safe base64.
pub fn b64url_encode(bytes: &[u8]) -> (r: String)
    ensures
        r@ == b64url_of(bytes@),
{
    let mut out = String::new();
    let mut i: usize = 0;
    while bytes.len() - i >= 3
        invariant
            i % 3 == 0,
            i <= bytes.len(),
            out@ == b64url_of(bytes@.take(i as int)),
        decreases bytes.len() - i,
    {
        let b0 = bytes[i];
        let b1 = bytes[i + 1];
        let b2 = bytes[i + 2];
        proof {
            lemma_group_bounds(b0, b1, b2);
        }
        push4(&mut out, b0 >> 2, ((b0 & 3) << 4) | (b1 >> 4), ((b1 & 15) << 2) | (b2 >> 6), b2 & 63);
        proof {
            let pre = bytes@.take(i as int);
            let chunk = bytes@.subrange(i as int, i + 3);
            lemma_b64url_concat(pre, chunk);
            assert(pre + chunk =~= bytes@.take(i + 3));
            assert(chunk[0] == b0 && chunk[1] == b1 && chunk[2] == b2);
            lemma_b64url_of_3(chunk);
            assert(out@ =~= b64url_of(bytes@.take(i + 3)));
        }
        i = i + 3;
    }
    let remaining = bytes.len() - i;
    proof {
        let pre = bytes@.take(i as int);
        let tail = bytes@.skip(i as int);
        lemma_b64url_concat(pre, tail);
        assert(pre + tail =~= bytes@);
    }
    if remaining == 1 {
        let b0 = bytes[i];
        proof {
            lemma_group_bounds(b0, 0, 0);
            assert(bytes@.skip(i as int) =~= seq![b0]);
        }
        let c0 = b64_char_exec(b0 >> 2);
        let c1 = b64_char_exec((b0 & 3) << 4);
        crate::text::push_char(&mut out, c0);
        crate::text::push_char(&mut out, c1);
        assert(out@ =~= b64url_of(bytes@));
    } else if remaining == 2 {
        let b0 = bytes[i];
        let b1 = bytes[i + 1];
        proof {
            lemma_group_bounds(b0, b1, 0);
            assert(bytes@.skip(i as int) =~= seq![b0, b1]);
        }
        let c0 = b64_char_exec(b0 >> 2);
        let c1 = b64_char_exec(((b0 & 3) << 4) | (b1 >> 4));
        let c2 = b64_char_exec((b1 & 15) << 2);
        crate::text::push_char(&mut out, c0);
        crate::text::push_char(&mut out, c1);
        crate::text::push_char(&mut out, c2);
        assert(out@ =~= b64url_of(bytes@));
    } else {
        assert(bytes@.skip(i as int) =~= Seq::<u8>::empty());
        assert(out@ =~= b64url_of(bytes@));
    }
    out
}

/// Append the four alphabet characters of one 3-byte group.
fn push4(out: &mut String, v0: u8, v1: u8, v2: u8, v3: u8)
    requires
        v0 < 64,
        v1 < 64,
        v2 < 64,
        v3 < 64,
    ensures
        final(out)@ == old(out)@ + seq![b64_char(v0), b64_char(v1), b64_char(v2), b64_char(v3)],
{
    let c0 = b64_char_exec(v0);
    let c1 = b64_char_exec(v1);
    let c2 = b64_char_exec(v2);
    let c3 = b64_char_exec(v3);
    crate::text::push_char(out, c0);
    crate::text::push_char(out, c1);
    crate::text::push_char(out, c2);
    crate::text::push_char(out, c3);
    assert(out@ =~= old(out)@ + seq![b64_char(v0), b64_char(v1), b64_char(v2), b64_char(v3)]);
}

} // verus!
