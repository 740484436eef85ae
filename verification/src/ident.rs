//! Identifier codec: opaque 128-bit file identifiers, their canonical
//! 36-character hyphenated textual form, and the validating parser for
//! untrusted textual input.
//!
//! The canonical text of an identifier is 36 characters: 32 lowercase hex
//! digits in the 8-4-4-4-12 grouping, with hyphens at positions 8, 13, 18
//! and 23. The parser first rejects any character that is not an ASCII
//! alphanumeric or a hyphen, then requires the canonical grouping (hex
//! digits of either case are accepted; rendering is always lowercase).

use vstd::prelude::*;
use vstd::string::StrSliceExecFns;
use vstd::string::StringExecFns;

verus! {

/// True of the character positions that hold a hyphen in canonical text.
pub open spec fn is_hyphen_pos(k: int) -> bool {
    k == 8 || k == 13 || k == 18 || k == 23
}

/// The character position of hex digit `j` (of 32) in canonical text.
pub open spec fn pos_of_hex(j: int) -> int {
    if j < 8 {
        j
    } else if j < 12 {
        j + 1
    } else if j < 16 {
        j + 2
    } else if j < 20 {
        j + 3
    } else {
        j + 4
    }
}

/// The hex-digit index of a non-hyphen character position in canonical text.
pub open spec fn hex_index_of_pos(k: int) -> int {
    if k < 8 {
        k
    } else if k < 13 {
        k - 1
    } else if k < 18 {
        k - 2
    } else if k < 23 {
        k - 3
    } else {
        k - 4
    }
}

/// The lowercase hex digit for a nibble value.
pub open spec fn hex_char(n: int) -> char {
    if n == 0 {
        '0'
    } else if n == 1 {
        '1'
    } else if n == 2 {
        '2'
    } else if n == 3 {
        '3'
    } else if n == 4 {
        '4'
    } else if n == 5 {
        '5'
    } else if n == 6 {
        '6'
    } else if n == 7 {
        '7'
    } else if n == 8 {
        '8'
    } else if n == 9 {
        '9'
    } else if n == 10 {
        'a'
    } else if n == 11 {
        'b'
    } else if n == 12 {
        'c'
    } else if n == 13 {
        'd'
    } else if n == 14 {
        'e'
    } else {
        'f'
    }
}

/// A hex digit of either case.
pub open spec fn is_hex_digit(c: char) -> bool {
    (48 <= c as int && c as int <= 57) || (97 <= c as int && c as int <= 102) || (65 <= c as int
        && c as int <= 70)
}

/// A lowercase hex digit, as rendering produces.
pub open spec fn is_lower_hex_digit(c: char) -> bool {
    (48 <= c as int && c as int <= 57) || (97 <= c as int && c as int <= 102)
}

/// The value of a hex digit.
pub open spec fn hex_val(c: char) -> int {
    if 48 <= c as int && c as int <= 57 {
        c as int - 48
    } else if 97 <= c as int && c as int <= 102 {
        c as int - 87
    } else {
        c as int - 55
    }
}

/// A character the parser's pre-filter admits: ASCII alphanumeric or hyphen.
pub open spec fn valid_param_char(c: char) -> bool {
    (48 <= c as int && c as int <= 57) || (65 <= c as int && c as int <= 90) || (97 <= c as int
        && c as int <= 122) || c as int == 45
}

/// Every character of the text passes the pre-filter.
pub open spec fn all_valid_chars(s: Seq<char>) -> bool {
    forall|i: int| 0 <= i < s.len() ==> valid_param_char(#[trigger] s[i])
}

/// Canonical grouped hex form: 36 characters, hyphens at the group breaks,
/// hex digits (either case) everywhere else.
pub open spec fn is_canonical(s: Seq<char>) -> bool {
    &&& s.len() == 36
    &&& forall|k: int|
        0 <= k < 36 ==> (if is_hyphen_pos(k) {
            #[trigger] s[k] == '-'
        } else {
            is_hex_digit(s[k])
        })
}

/// Canonical and entirely lowercase: exactly the texts rendering produces.
pub open spec fn is_canonical_lower(s: Seq<char>) -> bool {
    &&& is_canonical(s)
    &&& forall|k: int| 0 <= k < 36 && !is_hyphen_pos(k) ==> is_lower_hex_digit(#[trigger] s[k])
}

/// The canonical text of 16 identifier bytes.
pub open spec fn spec_render(b: Seq<u8>) -> Seq<char> {
    Seq::new(
        36,
        |k: int|
            if is_hyphen_pos(k) {
                '-'
            } else {
                let j = hex_index_of_pos(k);
                if j % 2 == 0 {
                    hex_char(b[j / 2] as int / 16)
                } else {
                    hex_char(b[j / 2] as int % 16)
                }
            },
    )
}

/// The 16 bytes encoded by canonical text.
pub open spec fn bytes_of(s: Seq<char>) -> Seq<u8> {
    Seq::new(
        16,
        |i: int| (hex_val(s[pos_of_hex(2 * i)]) * 16 + hex_val(s[pos_of_hex(2 * i + 1)])) as u8,
    )
}

/// An opaque 128-bit file identifier.
#[derive(Clone, PartialEq, Eq, Debug)]
pub struct FileDescriptor {
    bytes: Vec<u8>,
}

/// Why a textual identifier was rejected: `InvalidChars` when the pre-filter
/// found a character that is not an ASCII alphanumeric or hyphen; `Uuid`
/// when the characters were admissible but the canonical grouped hex shape
/// was not met.
#[derive(Clone, Copy, PartialEq, Eq, Debug)]
pub enum FileDescriptorParamError {
    Uuid,
    InvalidChars,
}

impl FileDescriptorParamError {
    /// A short description of the rejection, as the boundary logs it.
    pub fn describe(&self) -> (m: &'static str)
        ensures
            self is Uuid ==> m@ == ("Invalid UUID")@,
            self is InvalidChars ==> m@ == ("Invalid characters in UUID")@,
    {
        match self {
            FileDescriptorParamError::Uuid => "Invalid UUID",
            FileDescriptorParamError::InvalidChars => "Invalid characters in UUID",
        }
    }
}

impl View for FileDescriptor {
    type V = Seq<u8>;

    closed spec fn view(&self) -> Seq<u8> {
        self.bytes@
    }
}

/// Relies on uuid::Uuid::new_v4: 16 fresh random bytes with the version
/// nibble fixed to 4 and the variant bits to 10. Only those fixed bits are
/// assumed; the rest is random and nothing is claimed of it.
#[verifier::external_body]
fn mint_raw() -> (r: Vec<u8>)
    ensures
        r@.len() == 16,
        r@[6] / 16 == 4,
        r@[8] / 64 == 2,
{
    uuid::Uuid::new_v4().as_bytes().to_vec()
}

impl FileDescriptor {
    /// 16 bytes, always.
    pub open spec fn wf(&self) -> bool {
        self@.len() == 16
    }

    /// Mint a fresh random identifier (version-4 UUID semantics). The fixed
    /// version and variant bits are all that is promised; the remaining 122
    /// bits are random.
    pub fn mint() -> (r: FileDescriptor)
        ensures
            r.wf(),
            r@[6] / 16 == 4,
            r@[8] / 64 == 2,
    {
        FileDescriptor { bytes: mint_raw() }
    }

    /// Build an identifier from its 16 raw bytes.
    pub fn from_bytes(bytes: Vec<u8>) -> (r: FileDescriptor)
        requires
            bytes@.len() == 16,
        ensures
            r.wf(),
            r@ == bytes@,
    {
        FileDescriptor { bytes }
    }

    /// The raw bytes, as the index stores them.
    pub fn to_bytes(&self) -> (r: Vec<u8>)
        requires
            self.wf(),
        ensures
            r@ == self@,
    {
        let mut out: Vec<u8> = Vec::new();
        let mut i: usize = 0;
        while i < self.bytes.len()
            invariant
                i <= self.bytes@.len(),
                out@ == self.bytes@.subrange(0, i as int),
            decreases self.bytes@.len() - i,
        {
            out.push(self.bytes[i]);
            proof {
                assert(out@ =~= self.bytes@.subrange(0, i + 1 as int));
            }
            i = i + 1;
        }
        proof {
            assert(out@ =~= self@);
        }
        out
    }

    /// Render the canonical lowercase hyphenated text of this identifier.
    pub fn render(&self) -> (r: String)
        requires
            self.wf(),
        ensures
            r@ == spec_render(self@),
            is_canonical_lower(r@),
    {
        proof {
            lemma_spec_render_canonical(self@);
        }
        let ghost target: Seq<char> = spec_render(self@);
        let mut r: String = String::new();
        let mut i: usize = 0;
        while i < 16
            invariant
                self.wf(),
                i <= 16,
                target == spec_render(self@),
                r@.len() == pos_of_hex(2 * i as int),
                r@ == target.subrange(0, pos_of_hex(2 * i as int)),
            decreases 16 - i,
        {
            let ghost p: int = pos_of_hex(2 * i as int);
            proof {
                lemma_pos_of_hex_facts();
            }
            let b = self.bytes[i];
            let hi = hex_str(b / 16);
            let lo = hex_str(b % 16);
            r.append(hi);
            proof {
                assert(target[p] == hex_char(self@[i as int] as int / 16));
                assert(r@ =~= target.subrange(0, p + 1));
            }
            r.append(lo);
            proof {
                assert(target[p + 1] == hex_char(self@[i as int] as int % 16));
                assert(r@ =~= target.subrange(0, p + 2));
            }
            if i == 3 || i == 5 || i == 7 || i == 9 {
                r.append("-");
                proof {
                    reveal_strlit("-");
                    assert(is_hyphen_pos(p + 2));
                    assert(target[p + 2] == '-');
                    assert(r@ =~= target.subrange(0, p + 3));
                }
            }
            proof {
                assert(r@ == target.subrange(0, pos_of_hex(2 * (i + 1) as int)));
            }
            i = i + 1;
        }
        proof {
            assert(r@ =~= target);
        }
        r
    }

    /// Parse untrusted text into an identifier. The pre-filter rejects any
    /// character outside ASCII alphanumerics and hyphens (`InvalidChars`);
    /// after that, anything but the canonical grouped hex form fails with
    /// `Uuid`. On success the identifier's bytes are exactly those the text
    /// encodes.
    pub fn parse(text: &str) -> (r: Result<FileDescriptor, FileDescriptorParamError>)
        ensures
            r is Ok <==> is_canonical(text@),
            match r {
                Ok(fd) => fd.wf() && fd@ == bytes_of(text@),
                Err(e) => (e is InvalidChars <==> !all_valid_chars(text@)) && (e is Uuid
                    ==> !is_canonical(text@)),
            },
    {
        let n = text.unicode_len();
        let mut k: usize = 0;
        while k < n
            invariant
                n == text@.len(),
                k <= n,
                forall|i: int| 0 <= i < k ==> valid_param_char(#[trigger] text@[i]),
            decreases n - k,
        {
            let c = text.get_char(k);
            if !is_param_char_exec(c) {
                return Err(FileDescriptorParamError::InvalidChars);
            }
            k = k + 1;
        }
        assert(all_valid_chars(text@));
        if n != 36 {
            return Err(FileDescriptorParamError::Uuid);
        }
        let mut k: usize = 0;
        while k < 36
            invariant
                text@.len() == 36,
                k <= 36,
                all_valid_chars(text@),
                forall|i: int|
                    0 <= i < k ==> (if is_hyphen_pos(i) {
                        #[trigger] text@[i] == '-'
                    } else {
                        is_hex_digit(text@[i])
                    }),
            decreases 36 - k,
        {
            let c = text.get_char(k);
            if k == 8 || k == 13 || k == 18 || k == 23 {
                if c != '-' {
                    return Err(FileDescriptorParamError::Uuid);
                }
            } else {
                if hex_val_exec(c).is_none() {
                    return Err(FileDescriptorParamError::Uuid);
                }
            }
            k = k + 1;
        }
        assert(is_canonical(text@));
        proof {
            lemma_pos_of_hex_facts();
        }
        let mut bytes: Vec<u8> = Vec::new();
        let mut i: usize = 0;
        while i < 16
            invariant
                text@.len() == 36,
                is_canonical(text@),
                i <= 16,
                bytes@.len() == i,
                forall|t: int| 0 <= t < i ==> #[trigger] bytes@[t] == bytes_of(text@)[t],
            decreases 16 - i,
        {
            let p = pos_of_hex_exec(2 * i);
            let c1 = text.get_char(p);
            let c2 = text.get_char(p + 1);
            proof {
                lemma_pos_of_hex_facts();
            }
            assert(is_hex_digit(c1));
            assert(is_hex_digit(c2));
            let v1 = match hex_val_exec(c1) {
                Some(v) => v,
                None => {
                    proof {
                        assert(false);
                    }
                    0
                },
            };
            let v2 = match hex_val_exec(c2) {
                Some(v) => v,
                None => {
                    proof {
                        assert(false);
                    }
                    0
                },
            };
            bytes.push(v1 * 16 + v2);
            i = i + 1;
        }
        proof {
            assert(bytes@ =~= bytes_of(text@));
        }
        Ok(FileDescriptor { bytes })
    }
}

/// The single lowercase hex digit of a nibble, as a one-character string.
fn hex_str(n: u8) -> (r: &'static str)
    requires
        n < 16,
    ensures
        r@ =~= seq![hex_char(n as int)],
{
    proof {
        reveal_strlit("0");
        reveal_strlit("1");
        reveal_strlit("2");
        reveal_strlit("3");
        reveal_strlit("4");
        reveal_strlit("5");
        reveal_strlit("6");
        reveal_strlit("7");
        reveal_strlit("8");
        reveal_strlit("9");
        reveal_strlit("a");
        reveal_strlit("b");
        reveal_strlit("c");
        reveal_strlit("d");
        reveal_strlit("e");
        reveal_strlit("f");
    }
    match n {
        0 => "0",
        1 => "1",
        2 => "2",
        3 => "3",
        4 => "4",
        5 => "5",
        6 => "6",
        7 => "7",
        8 => "8",
        9 => "9",
        10 => "a",
        11 => "b",
        12 => "c",
        13 => "d",
        14 => "e",
        _ => "f",
    }
}

/// Whether the pre-filter admits this character.
fn is_param_char_exec(c: char) -> (r: bool)
    ensures
        r == valid_param_char(c),
{
    let u = c as u32;
    (48 <= u && u <= 57) || (65 <= u && u <= 90) || (97 <= u && u <= 122) || u == 45
}

/// The value of a hex digit of either case, or `None` for any other char.
fn hex_val_exec(c: char) -> (r: Option<u8>)
    ensures
        r is Some <==> is_hex_digit(c),
        match r {
            Some(v) => v as int == hex_val(c) && v < 16,
            None => true,
        },
{
    let u = c as u32;
    if 48 <= u && u <= 57 {
        Some((u - 48) as u8)
    } else if 97 <= u && u <= 102 {
        Some((u - 87) as u8)
    } else if 65 <= u && u <= 70 {
        Some((u - 55) as u8)
    } else {
        None
    }
}

/// The character position of hex digit `j`.
fn pos_of_hex_exec(j: usize) -> (p: usize)
    requires
        j < 32,
    ensures
        p as int == pos_of_hex(j as int),
        p < 36,
{
    if j < 8 {
        j
    } else if j < 12 {
        j + 1
    } else if j < 16 {
        j + 2
    } else if j < 20 {
        j + 3
    } else {
        j + 4
    }
}

/// Position bookkeeping of the canonical form: hex-digit indices and
/// character positions are inverse to one another, and no hex digit sits on
/// a hyphen position.
pub proof fn lemma_pos_of_hex_facts()
    ensures
        forall|j: int|
            0 <= j < 32 ==> 0 <= #[trigger] pos_of_hex(j) < 36 && !is_hyphen_pos(pos_of_hex(j))
                && hex_index_of_pos(pos_of_hex(j)) == j,
        forall|k: int|
            0 <= k < 36 && !is_hyphen_pos(k) ==> 0 <= #[trigger] hex_index_of_pos(k) < 32
                && pos_of_hex(hex_index_of_pos(k)) == k,
{
}

/// Rendering always yields canonical lowercase text.
pub proof fn lemma_spec_render_canonical(b: Seq<u8>)
    requires
        b.len() == 16,
    ensures
        is_canonical_lower(spec_render(b)),
        all_valid_chars(spec_render(b)),
{
    assert forall|k: int| 0 <= k < 36 && !is_hyphen_pos(k) implies is_lower_hex_digit(
        #[trigger] spec_render(b)[k],
    ) && valid_param_char(spec_render(b)[k]) by {
        lemma_pos_of_hex_facts();
        let j = hex_index_of_pos(k);
        assert((b[j / 2] as int) < 256);
        assert(b[j / 2] as int / 16 < 16);
        assert(b[j / 2] as int % 16 < 16);
    }
    assert forall|k: int| 0 <= k < 36 && is_hyphen_pos(k) implies #[trigger] spec_render(b)[k]
        == '-' && valid_param_char(spec_render(b)[k]) by {}
    assert(is_canonical(spec_render(b)));
}

/// Round trip, first half: parsing the rendered text of any identifier
/// gives back exactly its bytes.
pub proof fn lemma_parse_render(b: Seq<u8>)
    requires
        b.len() == 16,
    ensures
        is_canonical(spec_render(b)),
        bytes_of(spec_render(b)) == b,
{
    lemma_spec_render_canonical(b);
    let s = spec_render(b);
    assert forall|i: int| 0 <= i < 16 implies #[trigger] bytes_of(s)[i] == b[i] by {
        lemma_pos_of_hex_facts();
        let p0 = pos_of_hex(2 * i);
        let p1 = pos_of_hex(2 * i + 1);
        assert(s[p0] == hex_char(b[i] as int / 16));
        assert(s[p1] == hex_char(b[i] as int % 16));
        assert(0 <= b[i] as int / 16 < 16);
        assert(0 <= b[i] as int % 16 < 16);
        assert(hex_val(hex_char(b[i] as int / 16)) == b[i] as int / 16);
        assert(hex_val(hex_char(b[i] as int % 16)) == b[i] as int % 16);
        assert((b[i] as int / 16) * 16 + b[i] as int % 16 == b[i] as int);
    }
    assert(bytes_of(s) =~= b);
}

/// Round trip, second half: rendering the bytes parsed from canonical
/// lowercase text gives back exactly that text.
pub proof fn lemma_render_parse(s: Seq<char>)
    requires
        is_canonical_lower(s),
    ensures
        bytes_of(s).len() == 16,
        spec_render(bytes_of(s)) == s,
{
    let b = bytes_of(s);
    assert forall|k: int| 0 <= k < 36 implies #[trigger] spec_render(b)[k] == s[k] by {
        lemma_pos_of_hex_facts();
        if is_hyphen_pos(k) {
            assert(s[k] == '-');
        } else {
            let j = hex_index_of_pos(k);
            let i = j / 2;
            let c0 = s[pos_of_hex(2 * i)];
            let c1 = s[pos_of_hex(2 * i + 1)];
            assert(!is_hyphen_pos(pos_of_hex(2 * i)));
            assert(!is_hyphen_pos(pos_of_hex(2 * i + 1)));
            assert(is_lower_hex_digit(c0));
            assert(is_lower_hex_digit(c1));
            assert(0 <= hex_val(c0) < 16);
            assert(0 <= hex_val(c1) < 16);
            assert(b[i] as int == hex_val(c0) * 16 + hex_val(c1));
            assert(b[i] as int / 16 == hex_val(c0));
            assert(b[i] as int % 16 == hex_val(c1));
            assert(hex_char(hex_val(c0)) == c0);
            assert(hex_char(hex_val(c1)) == c1);
            if j % 2 == 0 {
                assert(pos_of_hex(2 * i) == k);
            } else {
                assert(pos_of_hex(2 * i + 1) == k);
            }
        }
    }
    assert(spec_render(b) =~= s);
}

} // verus!
