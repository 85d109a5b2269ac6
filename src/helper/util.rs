use vstd::prelude::*;
use vstd::std_specs::iter::IteratorSpec;

verus! {

/// The UTF-16 code units of one character: one unit inside the basic
/// multilingual plane, a surrogate pair above it.
pub open spec fn utf16_of_char(c: char) -> Seq<u16> {
    let v = c as u32;
    if v < 0x10000 {
        seq![v as u16]
    } else {
        let w = (v - 0x10000) as u32;
        seq![(0xD800 + w / 1024) as u16, (0xDC00 + w % 1024) as u16]
    }
}

/// The UTF-16 encoding of a character sequence.
pub open spec fn utf16_of(s: Seq<char>) -> Seq<u16>
    decreases s.len(),
{
    if s.len() == 0 {
        Seq::empty()
    } else {
        utf16_of(s.drop_last()) + utf16_of_char(s.last())
    }
}

/// Runs `func` and reports whether it produced a value.
pub fn boolean<F: FnOnce() -> Option<()>>(func: F) -> (r: bool)
    requires
        func.requires(()),
    ensures
        exists|o: Option<()>| func.ensures((), o) && r == (o is Some),
{
    let o = func();
    o.is_some()
}

/// Encodes a string as UTF-16 code units.
pub fn utf16(s: &str) -> (r: Vec<u16>)
    ensures
        r@ == utf16_of(s@),
{
    broadcast use vstd::string::group_string_axioms;

    let mut out: Vec<u16> = Vec::new();
    let mut it = s.chars();
    let ghost mut done: Seq<char> = Seq::empty();
    loop
        invariant
            it.obeys_prophetic_iter_laws(),
            done + it.remaining() == s@,
            out@ == utf16_of(done),
        decreases s@.len() - done.len(),
    {
        match it.next() {
            Some(c) => {
                proof {
                    assert(done.push(c).drop_last() =~= done);
                    done = done.push(c);
                }
                let v: u32 = c as u32;
                if v < 0x10000 {
                    out.push(v as u16);
                } else {
                    proof {
                        vstd::utf8::char_is_scalar(c);
                    }
                    let w: u32 = v - 0x10000;
                    out.push((0xD800 + w / 1024) as u16);
                    out.push((0xDC00 + w % 1024) as u16);
                }
            },
            None => {
                return out;
            },
        }
    }
}

} // verus!
