use vstd::prelude::*;
use vstd::std_specs::iter::IteratorSpec;

pub mod table;

use table::{lemma_adjacent_sorted, table_entry};
pub use table::{table_code, table_key, KeyCode, CODE_COUNT};

verus! {

/// Lexicographic order of identifiers, character by character by code point;
/// a proper prefix comes first.
pub open spec fn code_lt(a: Seq<char>, b: Seq<char>) -> bool
    decreases a.len(),
{
    if b.len() == 0 {
        false
    } else if a.len() == 0 {
        true
    } else if a[0] != b[0] {
        (a[0] as u32) < (b[0] as u32)
    } else {
        code_lt(a.drop_first(), b.drop_first())
    }
}

/// Whether some entry of the table has the identifier `s`.
pub open spec fn in_table(s: Seq<char>) -> bool {
    exists|i: int| 0 <= i < CODE_COUNT && table_code(i) == s
}

/// What looking up the identifier `s` gives: the logical key of the entry
/// with that identifier, or nothing when no entry has it.
pub open spec fn lookup_code(s: Seq<char>) -> Option<KeyCode> {
    if in_table(s) {
        Some(table_key(choose|i: int| 0 <= i < CODE_COUNT && table_code(i) == s))
    } else {
        None
    }
}

proof fn lemma_lt_irreflexive(a: Seq<char>)
    ensures
        !code_lt(a, a),
    decreases a.len(),
{
    if a.len() > 0 {
        lemma_lt_irreflexive(a.drop_first());
    }
}

proof fn lemma_lt_transitive(a: Seq<char>, b: Seq<char>, c: Seq<char>)
    requires
        code_lt(a, b),
        code_lt(b, c),
    ensures
        code_lt(a, c),
    decreases a.len(),
{
    if a.len() > 0 && b.len() > 0 && c.len() > 0 && a[0] == b[0] && b[0] == c[0] {
        lemma_lt_transitive(a.drop_first(), b.drop_first(), c.drop_first());
    }
}

proof fn lemma_table_sorted(i: int, j: int)
    requires
        0 <= i < j < CODE_COUNT,
    ensures
        code_lt(table_code(i), table_code(j)),
    decreases j - i,
{
    lemma_adjacent_sorted(j - 1);
    if i < j - 1 {
        lemma_table_sorted(i, j - 1);
        lemma_lt_transitive(table_code(i), table_code(j - 1), table_code(j));
    }
}

/// No two entries of the table share an identifier.
pub proof fn lemma_table_codes_distinct(i: int, j: int)
    requires
        0 <= i < CODE_COUNT,
        0 <= j < CODE_COUNT,
        i != j,
    ensures
        table_code(i) != table_code(j),
{
    if i < j {
        lemma_table_sorted(i, j);
        lemma_lt_irreflexive(table_code(i));
    } else {
        lemma_table_sorted(j, i);
        lemma_lt_irreflexive(table_code(j));
    }
}

/// Looking up the identifier of any entry gives exactly that entry's key.
pub proof fn lemma_lookup_table_entry(i: int)
    requires
        0 <= i < CODE_COUNT,
    ensures
        lookup_code(table_code(i)) == Some(table_key(i)),
{
    let s = table_code(i);
    assert(in_table(s));
    let k = choose|k: int| 0 <= k < CODE_COUNT && table_code(k) == s;
    if k != i {
        lemma_table_codes_distinct(i, k);
    }
}

fn chars_of(s: &str) -> (r: Vec<char>)
    ensures
        r@ == s@,
{
    broadcast use vstd::string::group_string_axioms;

    let mut out: Vec<char> = Vec::new();
    let mut it = s.chars();
    loop
        invariant
            it.obeys_prophetic_iter_laws(),
            out@ + it.remaining() == s@,
        decreases s@.len() - out@.len(),
    {
        match it.next() {
            Some(c) => {
                out.push(c);
            },
            None => {
                assert(it.remaining().len() == 0);
                assert(out@ =~= s@);
                return out;
            },
        }
    }
}

/// Compares `a` with `b`: negative when `a` comes first, zero when they are
/// equal, positive when `b` comes first.
fn compare_code(a: &Vec<char>, b: &str) -> (r: i8)
    ensures
        r < 0 <==> code_lt(a@, b@),
        r == 0 <==> a@ == b@,
        r > 0 <==> code_lt(b@, a@),
{
    let alen = a.len();
    let blen = b.unicode_len();
    let mut i: usize = 0;
    assert(a@.skip(0) =~= a@ && b@.skip(0) =~= b@);
    while i < alen && i < blen
        invariant
            alen == a@.len(),
            blen == b@.len(),
            i <= alen,
            i <= blen,
            code_lt(a@, b@) == code_lt(a@.skip(i as int), b@.skip(i as int)),
            code_lt(b@, a@) == code_lt(b@.skip(i as int), a@.skip(i as int)),
            (a@ == b@) == (a@.skip(i as int) == b@.skip(i as int)),
        decreases alen - i,
    {
        let x = a[i];
        let y = b.get_char(i);
        let ghost sa = a@.skip(i as int);
        let ghost sb = b@.skip(i as int);
        assert(sa[0] == x && sb[0] == y);
        let xv = x as u32;
        let yv = y as u32;
        proof {
            vstd::utf8::char_u32_cast(x, xv);
            vstd::utf8::char_u32_cast(y, yv);
        }
        if xv != yv {
            assert(sa != sb);
            if xv < yv {
                return -1;
            } else {
                return 1;
            }
        }
        assert(sa.drop_first() =~= a@.skip(i + 1));
        assert(sb.drop_first() =~= b@.skip(i + 1));
        assert((sa == sb) == (sa.drop_first() == sb.drop_first())) by {
            if sa.drop_first() == sb.drop_first() {
                assert(sa =~= seq![x] + sa.drop_first());
                assert(sb =~= seq![y] + sb.drop_first());
            }
        }
        i = i + 1;
    }
    let ghost sa = a@.skip(i as int);
    let ghost sb = b@.skip(i as int);
    if alen == blen {
        assert(sa.len() == 0 && sb.len() == 0);
        assert(sa =~= sb);
        0
    } else if i == alen {
        assert(sa.len() == 0);
        assert(sa != sb);
        -1
    } else {
        assert(sb.len() == 0);
        assert(sa != sb);
        1
    }
}

/// Translates a physical key identifier to its logical key, by binary search
/// over the sorted table.
pub fn from_code(code: &str) -> (r: Option<KeyCode>)
    ensures
        r == lookup_code(code@),
{
    let q = chars_of(code);
    let mut lo: usize = 0;
    let mut hi: usize = CODE_COUNT;
    while lo < hi
        invariant
            q@ == code@,
            0 <= lo <= hi <= CODE_COUNT,
            forall|i: int| 0 <= i < lo ==> code_lt(#[trigger] table_code(i), q@),
            forall|i: int| hi <= i < CODE_COUNT ==> code_lt(q@, #[trigger] table_code(i)),
        decreases hi - lo,
    {
        let mid = lo + (hi - lo) / 2;
        let (k, v) = table_entry(mid);
        let c = compare_code(&q, k);
        if c == 0 {
            proof {
                lemma_lookup_table_entry(mid as int);
            }
            return Some(v);
        } else if c > 0 {
            assert forall|i: int| 0 <= i < mid + 1 implies code_lt(#[trigger] table_code(i), q@) by {
                if i < mid {
                    lemma_table_sorted(i, mid as int);
                    lemma_lt_transitive(table_code(i), table_code(mid as int), q@);
                }
            }
            lo = mid + 1;
        } else {
            assert forall|i: int| mid <= i < CODE_COUNT implies code_lt(q@, #[trigger] table_code(i)) by {
                if i > mid {
                    lemma_table_sorted(mid as int, i);
                    lemma_lt_transitive(q@, table_code(mid as int), table_code(i));
                }
            }
            hi = mid;
        }
    }
    assert(!in_table(code@)) by {
        if in_table(code@) {
            let k = choose|k: int| 0 <= k < CODE_COUNT && table_code(k) == code@;
            lemma_lt_irreflexive(code@);
            assert(code_lt(table_code(k), q@) || code_lt(q@, table_code(k)));
        }
    }
    None
}

/// Bits of the compact modifier mask that embedders hand in.
pub const SHIFT: u8 = 1;
pub const CONTROL: u8 = 2;
pub const SUPER: u8 = 4;
pub const ALT: u8 = 8;

/// Bits of a modifier set, as the composition engine numbers them.
pub const MS_CONTROL: u32 = 1;
pub const MS_SUPER: u32 = 2;
pub const MS_SHIFT: u32 = 4;
pub const MS_ALT: u32 = 8;
/// All four modifier bits.
pub const MS_ALL: u32 = MS_CONTROL | MS_SUPER | MS_SHIFT | MS_ALT;

/// The modifier bits for the given held modifiers.
pub open spec fn modifier_bits(shift: bool, control: bool, sup: bool, alt: bool) -> u32 {
    (if shift { MS_SHIFT } else { 0u32 }) | (if control { MS_CONTROL } else { 0u32 }) | (if sup {
        MS_SUPER
    } else {
        0u32
    }) | (if alt { MS_ALT } else { 0u32 })
}

/// The modifier bits that the compact mask `x` stands for; bits above the
/// four known ones are ignored.
pub open spec fn mask_modifier_bits(x: u8) -> u32 {
    modifier_bits(x & SHIFT != 0, x & CONTROL != 0, x & SUPER != 0, x & ALT != 0)
}

/// The compact mask of the given held modifiers.
pub open spec fn modifier_mask(shift: bool, control: bool, sup: bool, alt: bool) -> u8 {
    (if shift { SHIFT } else { 0u8 }) | (if control { CONTROL } else { 0u8 }) | (if sup {
        SUPER
    } else {
        0u8
    }) | (if alt { ALT } else { 0u8 })
}

/// A set of held modifiers among shift, control, super and alt.
#[derive(Clone, Copy, Debug, PartialEq, Eq, Structural)]
pub struct Modifier(pub u32);

impl Modifier {
    /// The set read from a keyboard event's four modifier states, the meta
    /// key standing for super.
    pub fn from_flags(shift: bool, control: bool, alt: bool, meta: bool) -> (r: Modifier)
        ensures
            r.0 == modifier_bits(shift, control, meta, alt),
    {
        let s: u32 = if shift { MS_SHIFT } else { 0 };
        let c: u32 = if control { MS_CONTROL } else { 0 };
        let su: u32 = if meta { MS_SUPER } else { 0 };
        let a: u32 = if alt { MS_ALT } else { 0 };
        Modifier(s | c | su | a)
    }

    /// The set that a compact mask stands for.
    pub fn from_mask(x: u8) -> (r: Modifier)
        ensures
            r.0 == mask_modifier_bits(x),
    {
        let s: u32 = if x & SHIFT != 0 { MS_SHIFT } else { 0 };
        let c: u32 = if x & CONTROL != 0 { MS_CONTROL } else { 0 };
        let su: u32 = if x & SUPER != 0 { MS_SUPER } else { 0 };
        let a: u32 = if x & ALT != 0 { MS_ALT } else { 0 };
        Modifier(s | c | su | a)
    }

    pub fn bits(&self) -> (r: u32)
        ensures
            r == self.0,
    {
        self.0
    }

    pub fn shift(&self) -> (r: bool)
        ensures
            r == (self.0 & MS_SHIFT != 0),
    {
        self.0 & MS_SHIFT != 0
    }

    pub fn control(&self) -> (r: bool)
        ensures
            r == (self.0 & MS_CONTROL != 0),
    {
        self.0 & MS_CONTROL != 0
    }

    pub fn super_key(&self) -> (r: bool)
        ensures
            r == (self.0 & MS_SUPER != 0),
    {
        self.0 & MS_SUPER != 0
    }

    pub fn alt(&self) -> (r: bool)
        ensures
            r == (self.0 & MS_ALT != 0),
    {
        self.0 & MS_ALT != 0
    }
}

impl From<u8> for Modifier {
    fn from(x: u8) -> (r: Modifier) {
        Modifier::from_mask(x)
    }
}

impl vstd::std_specs::convert::FromSpecImpl<u8> for Modifier {
    open spec fn obeys_from_spec() -> bool {
        true
    }

    open spec fn from_spec(x: u8) -> Modifier {
        Modifier(mask_modifier_bits(x))
    }
}

/// The set from four modifier states and the set from the equivalent compact
/// mask are the same, and each modifier can be read back from it.
pub proof fn lemma_modifier_equivalence(shift: bool, control: bool, sup: bool, alt: bool)
    ensures
        mask_modifier_bits(modifier_mask(shift, control, sup, alt)) == modifier_bits(
            shift,
            control,
            sup,
            alt,
        ),
        (modifier_bits(shift, control, sup, alt) & MS_SHIFT != 0) == shift,
        (modifier_bits(shift, control, sup, alt) & MS_CONTROL != 0) == control,
        (modifier_bits(shift, control, sup, alt) & MS_SUPER != 0) == sup,
        (modifier_bits(shift, control, sup, alt) & MS_ALT != 0) == alt,
{
    let m = modifier_mask(shift, control, sup, alt);
    let b = modifier_bits(shift, control, sup, alt);
    let s8: u8 = if shift { 1 } else { 0 };
    let c8: u8 = if control { 2 } else { 0 };
    let u8v: u8 = if sup { 4 } else { 0 };
    let a8: u8 = if alt { 8 } else { 0 };
    assert(m == s8 | c8 | u8v | a8);
    assert((s8 | c8 | u8v | a8) & 1 != 0 <==> s8 != 0) by (bit_vector)
        requires s8 == 0 || s8 == 1, c8 == 0 || c8 == 2, u8v == 0 || u8v == 4, a8 == 0 || a8 == 8;
    assert((s8 | c8 | u8v | a8) & 2 != 0 <==> c8 != 0) by (bit_vector)
        requires s8 == 0 || s8 == 1, c8 == 0 || c8 == 2, u8v == 0 || u8v == 4, a8 == 0 || a8 == 8;
    assert((s8 | c8 | u8v | a8) & 4 != 0 <==> u8v != 0) by (bit_vector)
        requires s8 == 0 || s8 == 1, c8 == 0 || c8 == 2, u8v == 0 || u8v == 4, a8 == 0 || a8 == 8;
    assert((s8 | c8 | u8v | a8) & 8 != 0 <==> a8 != 0) by (bit_vector)
        requires s8 == 0 || s8 == 1, c8 == 0 || c8 == 2, u8v == 0 || u8v == 4, a8 == 0 || a8 == 8;
    let s32: u32 = if shift { 4 } else { 0 };
    let c32: u32 = if control { 1 } else { 0 };
    let u32v: u32 = if sup { 2 } else { 0 };
    let a32: u32 = if alt { 8 } else { 0 };
    assert(b == s32 | c32 | u32v | a32);
    assert((s32 | c32 | u32v | a32) & 4 != 0 <==> s32 != 0) by (bit_vector)
        requires s32 == 0 || s32 == 4, c32 == 0 || c32 == 1, u32v == 0 || u32v == 2, a32 == 0 || a32 == 8;
    assert((s32 | c32 | u32v | a32) & 1 != 0 <==> c32 != 0) by (bit_vector)
        requires s32 == 0 || s32 == 4, c32 == 0 || c32 == 1, u32v == 0 || u32v == 2, a32 == 0 || a32 == 8;
    assert((s32 | c32 | u32v | a32) & 2 != 0 <==> u32v != 0) by (bit_vector)
        requires s32 == 0 || s32 == 4, c32 == 0 || c32 == 1, u32v == 0 || u32v == 2, a32 == 0 || a32 == 8;
    assert((s32 | c32 | u32v | a32) & 8 != 0 <==> a32 != 0) by (bit_vector)
        requires s32 == 0 || s32 == 4, c32 == 0 || c32 == 1, u32v == 0 || u32v == 2, a32 == 0 || a32 == 8;
}

/// An abstract key: a logical key with the modifiers held with it.
#[derive(Clone, Copy, Debug, PartialEq, Eq, Structural)]
pub struct Key {
    pub code: KeyCode,
    pub modifiers: Modifier,
}

/// What the translation reads from a keyboard event.
#[derive(Clone, Debug)]
pub struct KeyInput {
    /// The logical key value (`KeyboardEvent.key`).
    pub key: String,
    /// The legacy numeric key code (`KeyboardEvent.keyCode`).
    pub key_code: u32,
    /// The physical key identifier (`KeyboardEvent.code`).
    pub code: String,
    pub shift_key: bool,
    pub ctrl_key: bool,
    pub alt_key: bool,
    pub meta_key: bool,
}

/// The legacy key code by which a host reports that its own IME took a key.
pub const IME_PROCESS_KEY_CODE: u32 = 229;

/// The character code of `c` with ASCII upper case letters made lower case.
pub open spec fn ascii_lower(c: char) -> u32 {
    if 65 <= (c as u32) <= 90 {
        (c as u32 + 32) as u32
    } else {
        c as u32
    }
}

/// Whether the logical key value `s` equals "process", ignoring ASCII case.
pub open spec fn is_process_key(s: Seq<char>) -> bool {
    &&& s.len() == "process"@.len()
    &&& forall|j: int| 0 <= j < s.len() ==> ascii_lower(#[trigger] s[j]) == "process"@[j] as u32
}

/// Whether a keyboard event is an artifact of the host's own IME.
pub open spec fn is_host_ime_event(e: KeyInput) -> bool {
    is_process_key(e.key@) || e.key_code == IME_PROCESS_KEY_CODE
}

/// The abstract key for an identifier and a modifier set; bits other than
/// the four modifiers are dropped.
pub open spec fn key_of(code: Seq<char>, modifiers: Modifier) -> Option<Key> {
    match lookup_code(code) {
        Some(k) => Some(Key { code: k, modifiers: Modifier(modifiers.0 & MS_ALL) }),
        None => None,
    }
}

/// The abstract key that a keyboard event stands for.
pub open spec fn event_key(e: KeyInput) -> Option<Key> {
    if is_host_ime_event(e) {
        None
    } else {
        key_of(e.code@, Modifier(modifier_bits(e.shift_key, e.ctrl_key, e.meta_key, e.alt_key)))
    }
}

fn is_process(s: &str) -> (r: bool)
    ensures
        r == is_process_key(s@),
{
    let target = "process";
    proof {
        reveal_strlit("process");
    }
    let n = s.unicode_len();
    if n != 7 {
        return false;
    }
    let mut i: usize = 0;
    while i < 7
        invariant
            n == s@.len(),
            n == 7,
            target@ == "process"@,
            target@.len() == 7,
            i <= 7,
            forall|j: int| 0 <= j < i ==> ascii_lower(#[trigger] s@[j]) == "process"@[j] as u32,
        decreases 7 - i,
    {
        let c = s.get_char(i);
        let t = target.get_char(i);
        let cv = c as u32;
        let lower: u32 = if 65 <= cv && cv <= 90 { cv + 32 } else { cv };
        if lower != t as u32 {
            return false;
        }
        i = i + 1;
    }
    true
}

/// Translates an identifier with a modifier set to an abstract key, keeping
/// only the four modifier bits.
pub fn from_code_with_modifiers(code: &str, modifier: Modifier) -> (r: Option<Key>)
    ensures
        r == key_of(code@, modifier),
{
    match from_code(code) {
        Some(k) => Some(Key { code: k, modifiers: Modifier(modifier.0 & MS_ALL) }),
        None => None,
    }
}

/// Translates a keyboard event to an abstract key; an event that the host's
/// own IME took, or one with an unknown identifier, gives none.
pub fn from_keyboard_event(event: &KeyInput) -> (r: Option<Key>)
    ensures
        r == event_key(*event),
{
    if is_process(event.key.as_str()) || event.key_code == IME_PROCESS_KEY_CODE {
        return None;
    }
    from_code_with_modifiers(
        event.code.as_str(),
        Modifier::from_flags(event.shift_key, event.ctrl_key, event.alt_key, event.meta_key),
    )
}

/// An event that the host's own IME took gives no abstract key, whatever its
/// identifier and modifiers.
pub proof fn lemma_host_ime_event_ignored(e: KeyInput)
    requires
        is_process_key(e.key@) || e.key_code == IME_PROCESS_KEY_CODE,
    ensures
        event_key(e) is None,
{
}

} // verus!
