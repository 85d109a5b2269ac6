use vstd::prelude::*;

use crate::helper::util::{utf16, utf16_of};
use crate::web_keycode::{event_key, from_keyboard_event, Key, KeyInput};

verus! {

/// The flags of one result of the composition engine.
#[derive(Clone, Copy, Debug, PartialEq, Eq, Structural)]
pub struct InputResult {
    /// The engine took the key in full.
    pub consumed: bool,
    /// Committed text is waiting.
    pub has_commit: bool,
    /// A preedit is showing.
    pub has_preedit: bool,
    /// The input category changed.
    pub language_changed: bool,
    /// The engine is not ready yet.
    pub not_ready: bool,
}

/// The result with no flag set.
pub open spec fn empty_result() -> InputResult {
    InputResult {
        consumed: false,
        has_commit: false,
        has_preedit: false,
        language_changed: false,
        not_ready: false,
    }
}

impl InputResult {
    pub fn empty() -> (r: InputResult)
        ensures
            r == empty_result(),
    {
        InputResult {
            consumed: false,
            has_commit: false,
            has_preedit: false,
            language_changed: false,
            not_ready: false,
        }
    }
}

/// The current input mode of the engine.
#[derive(Clone, Copy, Debug, PartialEq, Eq, Structural)]
pub enum Category {
    Hangul,
    Latin,
}

/// Name of the event that tells the page of the input category.
pub const CATEGORY_CHANGE_EVENT: &'static str = "kimeinputcategorychange";

/// The payload of the category-change event for a category.
pub open spec fn category_detail(c: Category) -> Seq<char> {
    match c {
        Category::Hangul => "hangul"@,
        Category::Latin => "latin"@,
    }
}

impl Category {
    /// The payload of the category-change event for this category.
    pub fn detail(&self) -> (r: &'static str)
        ensures
            r@ == category_detail(*self),
    {
        match self {
            Category::Hangul => "hangul",
            Category::Latin => "latin",
        }
    }
}

/// What to do with a key-down event, decided before the engine sees it.
#[derive(Clone, Copy, Debug, PartialEq, Eq, Structural)]
pub enum KeyStep {
    /// Leave the key to the host.
    PassThrough,
    /// A preedit was showing and the key has no abstract key: clear the
    /// preedit, flush the surface, then stop the composition.
    Interrupt,
    /// Submit this key to the engine.
    Press(Key),
}

/// What to do once the engine has answered a submitted key.
#[derive(Clone, Copy, Debug, PartialEq, Eq, Structural)]
pub struct Reaction {
    /// Suppress the host's default handling of the key.
    pub prevent_default: bool,
    /// Send the category-change notification.
    pub notify_category: bool,
    /// Run the commit/splice step.
    pub flush: bool,
}

/// The step for a key-down event, given whether a preedit was showing and
/// the abstract key that the event stands for.
pub open spec fn keydown_step(was_preedit: bool, key: Option<Key>) -> KeyStep {
    match key {
        Some(k) => KeyStep::Press(k),
        None => if was_preedit {
            KeyStep::Interrupt
        } else {
            KeyStep::PassThrough
        },
    }
}

/// The reaction to an engine result, given whether a preedit was showing
/// before the key.
pub open spec fn reaction_of(was_preedit: bool, r: InputResult) -> Reaction {
    Reaction {
        prevent_default: r.consumed,
        notify_category: r.language_changed,
        flush: r.consumed || r.has_commit || r.has_preedit || was_preedit,
    }
}

/// The decision state of a mounted session: the flags of the last result
/// that the engine gave.
#[derive(Clone, Copy, Debug)]
pub struct Composer {
    pub last_result: InputResult,
}

impl Composer {
    /// A session that has not submitted any key yet.
    pub fn new() -> (r: Composer)
        ensures
            r.last_result == empty_result(),
    {
        Composer { last_result: InputResult::empty() }
    }

    /// Whether a preedit is showing, as the last result tells.
    pub fn is_composing(&self) -> (r: bool)
        ensures
            r == self.last_result.has_preedit,
    {
        self.last_result.has_preedit
    }

    /// Decides what a key-down event leads to.
    pub fn on_keydown(&self, event: &KeyInput) -> (r: KeyStep)
        ensures
            r == keydown_step(self.last_result.has_preedit, event_key(*event)),
    {
        let was_preedit = self.last_result.has_preedit;
        match from_keyboard_event(event) {
            Some(key) => KeyStep::Press(key),
            None => if was_preedit {
                KeyStep::Interrupt
            } else {
                KeyStep::PassThrough
            },
        }
    }

    /// Records the engine's answer to a submitted key and decides what
    /// follows from it.
    pub fn on_press_result(&mut self, result: InputResult) -> (r: Reaction)
        ensures
            final(self).last_result == result,
            r == reaction_of(old(self).last_result.has_preedit, result),
    {
        let was_preedit = self.last_result.has_preedit;
        self.last_result = result;
        Reaction {
            prevent_default: result.consumed,
            notify_category: result.language_changed,
            flush: result.consumed || result.has_commit || result.has_preedit || was_preedit,
        }
    }

    /// Forgets the last result, as the engine is reset.
    pub fn stop_composite(&mut self)
        ensures
            final(self).last_result == empty_result(),
    {
        self.last_result = InputResult::empty();
    }
}

/// The surface after a splice, with its new selection.
#[derive(Clone, Debug)]
pub struct Splice {
    pub value: Vec<u16>,
    pub selection_start: u32,
    pub selection_end: u32,
}

/// The selection, or the start of the text when the surface gives none.
pub open spec fn selection_or_start(selection: Option<(u32, u32)>) -> (u32, u32) {
    match selection {
        Some(s) => s,
        None => (0, 0),
    }
}

/// An offset into a text of `len` code units, held to its end.
pub open spec fn clamp(x: u32, len: nat) -> int {
    if x as int > len {
        len as int
    } else {
        x as int
    }
}

/// The text before the selection, the commit, the preedit and the text after
/// the selection, in this order.
pub open spec fn spliced(value: Seq<u16>, start: u32, end: u32, commit: Seq<u16>, preedit: Seq<u16>) -> Seq<u16> {
    value.subrange(0, clamp(start, value.len())) + commit + preedit + value.subrange(
        clamp(end, value.len()),
        value.len() as int,
    )
}

/// Whether the caret bounds of a splice fit in `u32`.
pub open spec fn splice_fits(selection: Option<(u32, u32)>, commit: Seq<char>, preedit: Seq<char>) -> bool {
    selection_or_start(selection).0 + utf16_of(commit).len() + utf16_of(preedit).len() <= u32::MAX
}

fn copy_range(out: &mut Vec<u16>, src: &Vec<u16>, from: usize, to: usize)
    requires
        from <= to <= src@.len(),
    ensures
        final(out)@ == old(out)@ + src@.subrange(from as int, to as int),
{
    let mut i = from;
    while i < to
        invariant
            from <= i <= to <= src@.len(),
            out@ == old(out)@ + src@.subrange(from as int, i as int),
        decreases to - i,
    {
        out.push(src[i]);
        assert(src@.subrange(from as int, i + 1) =~= src@.subrange(from as int, i as int).push(src@[i as int]));
        i = i + 1;
    }
}

/// The commit/splice step: puts the committed text and the preedit in place
/// of the selection of `value`, and selects the preedit.
pub fn commit_splice(value: &Vec<u16>, selection: Option<(u32, u32)>, commit: &str, preedit: &str) -> (r: Splice)
    requires
        splice_fits(selection, commit@, preedit@),
    ensures
        r.value@ == spliced(
            value@,
            selection_or_start(selection).0,
            selection_or_start(selection).1,
            utf16_of(commit@),
            utf16_of(preedit@),
        ),
        r.selection_start == selection_or_start(selection).0 + utf16_of(commit@).len(),
        r.selection_end == r.selection_start + utf16_of(preedit@).len(),
{
    let (start, end) = match selection {
        Some(s) => s,
        None => (0u32, 0u32),
    };
    let len = value.len();
    let before_end: usize = if start as usize > len { len } else { start as usize };
    let after_start: usize = if end as usize > len { len } else { end as usize };
    let commit16 = utf16(commit);
    let preedit16 = utf16(preedit);
    let mut out: Vec<u16> = Vec::new();
    copy_range(&mut out, value, 0, before_end);
    copy_range(&mut out, &commit16, 0, commit16.len());
    copy_range(&mut out, &preedit16, 0, preedit16.len());
    copy_range(&mut out, value, after_start, len);
    proof {
        assert(commit16@.subrange(0, commit16@.len() as int) =~= commit16@);
        assert(preedit16@.subrange(0, preedit16@.len() as int) =~= preedit16@);
    }
    let new_start = start + commit16.len() as u32;
    let new_end = new_start + preedit16.len() as u32;
    Splice { value: out, selection_start: new_start, selection_end: new_end }
}

/// When the selection starts inside the text, the spliced text keeps what
/// came before the selection, follows it with the commit, and the new
/// selection spans exactly the preedit.
pub proof fn lemma_selection_spans_preedit(
    value: Seq<u16>,
    start: u32,
    end: u32,
    commit: Seq<u16>,
    preedit: Seq<u16>,
)
    requires
        start <= value.len(),
    ensures
        spliced(value, start, end, commit, preedit).subrange(0, start as int)
            == value.subrange(0, start as int),
        spliced(value, start, end, commit, preedit).subrange(start as int, start + commit.len())
            == commit,
        spliced(value, start, end, commit, preedit).subrange(
            start + commit.len(),
            start + commit.len() + preedit.len(),
        ) == preedit,
{
    let t = spliced(value, start, end, commit, preedit);
    let b = value.subrange(0, start as int);
    assert(t.subrange(0, start as int) =~= b);
    assert(t.subrange(start as int, start + commit.len()) =~= commit);
    assert(t.subrange(start + commit.len(), start + commit.len() + preedit.len()) =~= preedit);
}

/// A key that gives no abstract key while a preedit shows interrupts the
/// composition; the flush that follows, with no commit and no preedit left,
/// removes the selected preedit text and puts the caret where it began.
pub proof fn lemma_interrupt_flushes(value: Seq<u16>, start: u32, end: u32)
    requires
        start <= end <= value.len(),
    ensures
        keydown_step(true, None) == KeyStep::Interrupt,
        spliced(value, start, end, utf16_of(Seq::empty()), utf16_of(Seq::empty()))
            == value.subrange(0, start as int) + value.subrange(end as int, value.len() as int),
        start + utf16_of(Seq::empty()).len() == start,
{
    assert(utf16_of(Seq::<char>::empty()) =~= Seq::<u16>::empty());
    assert(value.subrange(0, start as int) + Seq::<u16>::empty() + Seq::<u16>::empty()
        =~= value.subrange(0, start as int));
}

} // verus!
