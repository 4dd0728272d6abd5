//! The identifier table: fixed 128-bit interface identifiers, compared
//! structurally, plus their canonical textual form.

use vstd::prelude::*;

verus! {

/// A 128-bit interface identifier, split into the conventional four groups.
///
/// The trailing eight bytes are stored as individual fields so that equality
/// of two identifiers is plain structural equality of all twelve fields.
#[derive(Debug, Copy, Clone, PartialEq, Eq, Structural)]
pub struct Guid {
    pub data1: u32,
    pub data2: u16,
    pub data3: u16,
    pub data4_0: u8,
    pub data4_1: u8,
    pub data4_2: u8,
    pub data4_3: u8,
    pub data4_4: u8,
    pub data4_5: u8,
    pub data4_6: u8,
    pub data4_7: u8,
}

impl Guid {
    /// Assembles an identifier from the four conventional groups, the last
    /// one given as an array of eight bytes.
    pub fn new(a: u32, b: u16, c: u16, d: [u8; 8]) -> (g: Guid)
        ensures
            g.data1 == a,
            g.data2 == b,
            g.data3 == c,
            g.data4_0 == d[0],
            g.data4_1 == d[1],
            g.data4_2 == d[2],
            g.data4_3 == d[3],
            g.data4_4 == d[4],
            g.data4_5 == d[5],
            g.data4_6 == d[6],
            g.data4_7 == d[7],
    {
        Guid {
            data1: a,
            data2: b,
            data3: c,
            data4_0: d[0],
            data4_1: d[1],
            data4_2: d[2],
            data4_3: d[3],
            data4_4: d[4],
            data4_5: d[5],
            data4_6: d[6],
            data4_7: d[7],
        }
    }
}

/// The lower-case hexadecimal digit for one value below sixteen.
pub open spec fn spec_hex_digit(n: u8) -> char
    recommends
        n < 16,
{
    if n == 0 { '0' }
    else if n == 1 { '1' }
    else if n == 2 { '2' }
    else if n == 3 { '3' }
    else if n == 4 { '4' }
    else if n == 5 { '5' }
    else if n == 6 { '6' }
    else if n == 7 { '7' }
    else if n == 8 { '8' }
    else if n == 9 { '9' }
    else if n == 10 { 'a' }
    else if n == 11 { 'b' }
    else if n == 12 { 'c' }
    else if n == 13 { 'd' }
    else if n == 14 { 'e' }
    else { 'f' }
}

/// The value `v`, written as exactly `n` lower-case hexadecimal digits,
/// most significant first, truncated to its `n` low digits.
pub open spec fn spec_hex(v: int, n: nat) -> Seq<char>
    decreases n,
{
    if n == 0 {
        Seq::empty()
    } else {
        spec_hex(v / 16, (n - 1) as nat).push(spec_hex_digit((v % 16) as u8))
    }
}

/// The canonical textual form of an identifier: five dash-separated groups
/// of 8, 4, 4, 4 and 12 lower-case hexadecimal digits.
pub open spec fn spec_guid_string(g: Guid) -> Seq<char> {
    spec_hex(g.data1 as int, 8) + seq!['-'] + spec_hex(g.data2 as int, 4) + seq!['-'] + spec_hex(
        g.data3 as int,
        4,
    ) + seq!['-'] + spec_hex(g.data4_0 as int, 2) + spec_hex(g.data4_1 as int, 2) + seq!['-']
        + spec_hex(g.data4_2 as int, 2) + spec_hex(g.data4_3 as int, 2) + spec_hex(
        g.data4_4 as int,
        2,
    ) + spec_hex(g.data4_5 as int, 2) + spec_hex(g.data4_6 as int, 2) + spec_hex(
        g.data4_7 as int,
        2,
    )
}

fn push_hex_digit(s: &mut String, n: u8)
    requires
        n < 16,
    ensures
        final(s)@ == old(s)@.push(spec_hex_digit(n)),
{
    let d: &str = if n == 0 { "0" }
    else if n == 1 { "1" }
    else if n == 2 { "2" }
    else if n == 3 { "3" }
    else if n == 4 { "4" }
    else if n == 5 { "5" }
    else if n == 6 { "6" }
    else if n == 7 { "7" }
    else if n == 8 { "8" }
    else if n == 9 { "9" }
    else if n == 10 { "a" }
    else if n == 11 { "b" }
    else if n == 12 { "c" }
    else if n == 13 { "d" }
    else if n == 14 { "e" }
    else { "f" };
    proof {
        reveal_strlit("0");
        reveal_strlit("1");
        reveal_strlit("2");
        reveal_strlit("3");
        reveal_strlit("4");
        reveal_strlit("5");
        reveal_strlit("6");
        reveal_strlit("7");
        reveal_strlit("8");
        reveal_strlit("9");
        reveal_strlit("a");
        reveal_strlit("b");
        reveal_strlit("c");
        reveal_strlit("d");
        reveal_strlit("e");
        reveal_strlit("f");
        assert(d@ =~= seq![spec_hex_digit(n)]);
    }
    s.append(d);
    proof {
        assert(s@ =~= old(s)@.push(spec_hex_digit(n)));
    }
}

fn push_hex(s: &mut String, v: u64, n: usize)
    ensures
        final(s)@ == old(s)@ + spec_hex(v as int, n as nat),
    decreases n,
{
    if n > 0 {
        push_hex(s, v / 16, n - 1);
        push_hex_digit(s, (v % 16) as u8);
        proof {
            assert(s@ =~= old(s)@ + spec_hex(v as int, n as nat));
        }
    } else {
        proof {
            assert(s@ =~= old(s)@ + spec_hex(v as int, 0));
        }
    }
}

fn push_dash(s: &mut String)
    ensures
        final(s)@ == old(s)@ + seq!['-'],
{
    proof {
        reveal_strlit("-");
        assert(("-")@ =~= seq!['-']);
    }
    s.append("-");
}

impl Guid {
    /// The canonical lower-case textual form of this identifier.
    pub fn display_string(&self) -> (s: String)
        ensures
            s@ == spec_guid_string(*self),
    {
        let mut s = String::new();
        push_hex(&mut s, self.data1 as u64, 8);
        push_dash(&mut s);
        push_hex(&mut s, self.data2 as u64, 4);
        push_dash(&mut s);
        push_hex(&mut s, self.data3 as u64, 4);
        push_dash(&mut s);
        push_hex(&mut s, self.data4_0 as u64, 2);
        push_hex(&mut s, self.data4_1 as u64, 2);
        push_dash(&mut s);
        push_hex(&mut s, self.data4_2 as u64, 2);
        push_hex(&mut s, self.data4_3 as u64, 2);
        push_hex(&mut s, self.data4_4 as u64, 2);
        push_hex(&mut s, self.data4_5 as u64, 2);
        push_hex(&mut s, self.data4_6 as u64, 2);
        push_hex(&mut s, self.data4_7 as u64, 2);
        proof {
            assert(s@ =~= spec_guid_string(*self));
        }
        s
    }
}

/// The universal base-capability identifier,
/// 00000000-0000-0000-C000-000000000046.
pub open spec fn spec_iid_unknown() -> Guid {
    Guid {
        data1: 0x00000000,
        data2: 0x0000,
        data3: 0x0000,
        data4_0: 0xc0,
        data4_1: 0x00,
        data4_2: 0x00,
        data4_3: 0x00,
        data4_4: 0x00,
        data4_5: 0x00,
        data4_6: 0x00,
        data4_7: 0x46,
    }
}

/// The thumbnail-provider capability identifier,
/// e357fccd-a995-4576-b01f-234630154e96.
pub open spec fn spec_iid_thumbnail_provider() -> Guid {
    Guid {
        data1: 0xe357fccd,
        data2: 0xa995,
        data3: 0x4576,
        data4_0: 0xb0,
        data4_1: 0x1f,
        data4_2: 0x23,
        data4_3: 0x46,
        data4_4: 0x30,
        data4_5: 0x15,
        data4_6: 0x4e,
        data4_7: 0x96,
    }
}

/// The stream-initialization capability identifier,
/// b824b49d-22ac-4161-ac8a-9916e8fa3f7f.
pub open spec fn spec_iid_initialize_with_stream() -> Guid {
    Guid {
        data1: 0xb824b49d,
        data2: 0x22ac,
        data3: 0x4161,
        data4_0: 0xac,
        data4_1: 0x8a,
        data4_2: 0x99,
        data4_3: 0x16,
        data4_4: 0xe8,
        data4_5: 0xfa,
        data4_6: 0x3f,
        data4_7: 0x7f,
    }
}

/// The universal base-capability identifier as a runtime value.
pub fn iid_unknown() -> (g: Guid)
    ensures
        g == spec_iid_unknown(),
{
    Guid::new(0x00000000, 0x0000, 0x0000, [0xc0, 0x00, 0x00, 0x00, 0x00, 0x00, 0x00, 0x46])
}

/// The thumbnail-provider capability identifier as a runtime value.
pub fn iid_thumbnail_provider() -> (g: Guid)
    ensures
        g == spec_iid_thumbnail_provider(),
{
    Guid::new(0xe357fccd, 0xa995, 0x4576, [0xb0, 0x1f, 0x23, 0x46, 0x30, 0x15, 0x4e, 0x96])
}

/// The stream-initialization capability identifier as a runtime value.
pub fn iid_initialize_with_stream() -> (g: Guid)
    ensures
        g == spec_iid_initialize_with_stream(),
{
    Guid::new(0xb824b49d, 0x22ac, 0x4161, [0xac, 0x8a, 0x99, 0x16, 0xe8, 0xfa, 0x3f, 0x7f])
}

} // verus!
