//! UTF-8 validity of byte sequences.
//!
//! The recording report format emits artifact content as literal JSON text, so
//! the change-set only admits content that is valid UTF-8. The spec function
//! here states validity byte by byte, following the standard encoding table;
//! the executable checker lets callers test it before appending a record.

use vstd::prelude::*;

verus! {

/// A UTF-8 continuation byte: `10xxxxxx`.
pub open spec fn is_cont_byte(b: u8) -> bool {
    0x80 <= b < 0xC0
}

/// Whether `s` is a valid UTF-8 encoding of some character sequence,
/// per the standard encoding table (shortest form, surrogates excluded,
/// scalar values at most U+10FFFF).
pub open spec fn is_utf8(s: Seq<u8>) -> bool
    decreases s.len(),
{
    if s.len() == 0 {
        true
    } else {
        let b0 = s[0];
        if b0 < 0x80 {
            is_utf8(s.skip(1))
        } else if 0xC2 <= b0 < 0xE0 {
            s.len() >= 2 && is_cont_byte(s[1]) && is_utf8(s.skip(2))
        } else if b0 == 0xE0 {
            s.len() >= 3 && 0xA0 <= s[1] < 0xC0 && is_cont_byte(s[2]) && is_utf8(s.skip(3))
        } else if b0 == 0xED {
            s.len() >= 3 && 0x80 <= s[1] < 0xA0 && is_cont_byte(s[2]) && is_utf8(s.skip(3))
        } else if 0xE1 <= b0 < 0xF0 {
            s.len() >= 3 && is_cont_byte(s[1]) && is_cont_byte(s[2]) && is_utf8(s.skip(3))
        } else if b0 == 0xF0 {
            s.len() >= 4 && 0x90 <= s[1] < 0xC0 && is_cont_byte(s[2]) && is_cont_byte(s[3])
                && is_utf8(s.skip(4))
        } else if 0xF1 <= b0 < 0xF4 {
            s.len() >= 4 && is_cont_byte(s[1]) && is_cont_byte(s[2]) && is_cont_byte(s[3])
                && is_utf8(s.skip(4))
        } else if b0 == 0xF4 {
            s.len() >= 4 && 0x80 <= s[1] < 0x90 && is_cont_byte(s[2]) && is_cont_byte(s[3])
                && is_utf8(s.skip(4))
        } else {
            false
        }
    }
}

/// Checks whether the bytes of `s` are valid UTF-8.
pub fn is_utf8_bytes(s: &Vec<u8>) -> (r: bool)
    ensures
        r == is_utf8(s@),
{
    let n = s.len();
    let mut i: usize = 0;
    proof {
        assert(s@.skip(0) =~= s@);
    }
    while i < n
        invariant
            i <= n,
            n == s@.len(),
            is_utf8(s@) == is_utf8(s@.skip(i as int)),
        decreases n - i,
    {
        let ghost rest = s@.skip(i as int);
        let b0 = s[i];
        proof {
            assert(rest[0] == s@[i as int]);
        }
        if b0 < 0x80 {
            proof {
                assert(rest.skip(1) =~= s@.skip(i + 1));
            }
            i += 1;
        } else if 0xC2 <= b0 && b0 < 0xE0 {
            if n - i < 2 || !(0x80 <= s[i + 1] && s[i + 1] < 0xC0) {
                proof {
                    assert(i + 1 < n ==> rest[1] == s@[i + 1]);
                }
                return false;
            }
            proof {
                assert(rest[1] == s@[i + 1]);
                assert(rest.skip(2) =~= s@.skip(i + 2));
            }
            i += 2;
        } else if b0 == 0xE0 {
            if n - i < 3 || !(0xA0 <= s[i + 1] && s[i + 1] < 0xC0)
                || !(0x80 <= s[i + 2] && s[i + 2] < 0xC0) {
                proof {
                    assert(i + 1 < n ==> rest[1] == s@[i + 1]);
                    assert(i + 2 < n ==> rest[2] == s@[i + 2]);
                }
                return false;
            }
            proof {
                assert(rest[1] == s@[i + 1]);
                assert(rest[2] == s@[i + 2]);
                assert(rest.skip(3) =~= s@.skip(i + 3));
            }
            i += 3;
        } else if b0 == 0xED {
            if n - i < 3 || !(0x80 <= s[i + 1] && s[i + 1] < 0xA0)
                || !(0x80 <= s[i + 2] && s[i + 2] < 0xC0) {
                proof {
                    assert(i + 1 < n ==> rest[1] == s@[i + 1]);
                    assert(i + 2 < n ==> rest[2] == s@[i + 2]);
                }
                return false;
            }
            proof {
                assert(rest[1] == s@[i + 1]);
                assert(rest[2] == s@[i + 2]);
                assert(rest.skip(3) =~= s@.skip(i + 3));
            }
            i += 3;
        } else if 0xE1 <= b0 && b0 < 0xF0 {
            if n - i < 3 || !(0x80 <= s[i + 1] && s[i + 1] < 0xC0)
                || !(0x80 <= s[i + 2] && s[i + 2] < 0xC0) {
                proof {
                    assert(i + 1 < n ==> rest[1] == s@[i + 1]);
                    assert(i + 2 < n ==> rest[2] == s@[i + 2]);
                }
                return false;
            }
            proof {
                assert(rest[1] == s@[i + 1]);
                assert(rest[2] == s@[i + 2]);
                assert(rest.skip(3) =~= s@.skip(i + 3));
            }
            i += 3;
        } else if b0 == 0xF0 {
            if n - i < 4 || !(0x90 <= s[i + 1] && s[i + 1] < 0xC0)
                || !(0x80 <= s[i + 2] && s[i + 2] < 0xC0)
                || !(0x80 <= s[i + 3] && s[i + 3] < 0xC0) {
                proof {
                    assert(i + 1 < n ==> rest[1] == s@[i + 1]);
                    assert(i + 2 < n ==> rest[2] == s@[i + 2]);
                    assert(i + 3 < n ==> rest[3] == s@[i + 3]);
                }
                return false;
            }
            proof {
                assert(rest[1] == s@[i + 1]);
                assert(rest[2] == s@[i + 2]);
                assert(rest[3] == s@[i + 3]);
                assert(rest.skip(4) =~= s@.skip(i + 4));
            }
            i += 4;
        } else if 0xF1 <= b0 && b0 < 0xF4 {
            if n - i < 4 || !(0x80 <= s[i + 1] && s[i + 1] < 0xC0)
                || !(0x80 <= s[i + 2] && s[i + 2] < 0xC0)
                || !(0x80 <= s[i + 3] && s[i + 3] < 0xC0) {
                proof {
                    assert(i + 1 < n ==> rest[1] == s@[i + 1]);
                    assert(i + 2 < n ==> rest[2] == s@[i + 2]);
                    assert(i + 3 < n ==> rest[3] == s@[i + 3]);
                }
                return false;
            }
            proof {
                assert(rest[1] == s@[i + 1]);
                assert(rest[2] == s@[i + 2]);
                assert(rest[3] == s@[i + 3]);
                assert(rest.skip(4) =~= s@.skip(i + 4));
            }
            i += 4;
        } else if b0 == 0xF4 {
            if n - i < 4 || !(0x80 <= s[i + 1] && s[i + 1] < 0x90)
                || !(0x80 <= s[i + 2] && s[i + 2] < 0xC0)
                || !(0x80 <= s[i + 3] && s[i + 3] < 0xC0) {
                proof {
                    assert(i + 1 < n ==> rest[1] == s@[i + 1]);
                    assert(i + 2 < n ==> rest[2] == s@[i + 2]);
                    assert(i + 3 < n ==> rest[3] == s@[i + 3]);
                }
                return false;
            }
            proof {
                assert(rest[1] == s@[i + 1]);
                assert(rest[2] == s@[i + 2]);
                assert(rest[3] == s@[i + 3]);
                assert(rest.skip(4) =~= s@.skip(i + 4));
            }
            i += 4;
        } else {
            return false;
        }
    }
    proof {
        assert(s@.skip(n as int) =~= Seq::<u8>::empty());
    }
    true
}

} // verus!
