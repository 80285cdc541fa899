//! Turning a text into paced character-insertion steps.

use vstd::prelude::*;
use vstd::string::StrSliceExecFns;

verus! {

/// The pause, in milliseconds, that follows each inserted character.
pub const KEYSTROKE_DELAY_MS: u64 = 10;

/// One thing for the host to do while typing a text.
#[derive(Clone, Copy, Debug, PartialEq, Eq, Structural)]
pub enum InjectStep {
    /// Synthesize the insertion of this character at the current input focus.
    Insert(char),
    /// Suspend the typing task for this many milliseconds.
    Pause(u64),
    /// Nothing is left to type.
    Done,
}

/// The step at position `k` of typing `text`: even positions insert the
/// characters in order, odd positions pause for `KEYSTROKE_DELAY_MS`.
pub open spec fn step_at(text: Seq<char>, k: int) -> InjectStep {
    if k % 2 == 0 {
        InjectStep::Insert(text[k / 2])
    } else {
        InjectStep::Pause(KEYSTROKE_DELAY_MS)
    }
}

/// Every step of typing `text`: each character is inserted, in order, and
/// followed by a pause of `KEYSTROKE_DELAY_MS`.
pub open spec fn steps_for(text: Seq<char>) -> Seq<InjectStep> {
    Seq::new((2 * text.len()) as nat, |k: int| step_at(text, k))
}

/// The characters that a run of steps inserts, in the order of insertion.
pub open spec fn inserted(steps: Seq<InjectStep>) -> Seq<char>
    decreases steps.len(),
{
    if steps.len() == 0 {
        seq![]
    } else {
        let rest = inserted(steps.drop_last());
        match steps.last() {
            InjectStep::Insert(c) => rest.push(c),
            _ => rest,
        }
    }
}

/// Typing a text inserts each of its characters exactly once, in order, and
/// nothing else; every insertion is followed by a pause of
/// `KEYSTROKE_DELAY_MS`, so consecutive insertions are that far apart.
pub proof fn lemma_types_text_in_order(text: Seq<char>)
    ensures
        inserted(steps_for(text)) == text,
        steps_for(text).len() == 2 * text.len(),
        forall|i: int|
            0 <= i < text.len() ==> {
                &&& #[trigger] steps_for(text)[2 * i] == InjectStep::Insert(text[i])
                &&& steps_for(text)[2 * i + 1] == InjectStep::Pause(KEYSTROKE_DELAY_MS)
            },
    decreases text.len(),
{
    assert forall|i: int| 0 <= i < text.len() implies {
        &&& #[trigger] steps_for(text)[2 * i] == InjectStep::Insert(text[i])
        &&& steps_for(text)[2 * i + 1] == InjectStep::Pause(KEYSTROKE_DELAY_MS)
    } by {
        assert((2 * i) % 2 == 0 && (2 * i) / 2 == i && (2 * i + 1) % 2 == 1) by (nonlinear_arith);
    }
    if text.len() > 0 {
        let shorter = text.drop_last();
        let steps = steps_for(text);
        lemma_types_text_in_order(shorter);
        let n = shorter.len() as int;
        assert(steps.drop_last().drop_last() =~= steps_for(shorter)) by {
            assert forall|k: int| 0 <= k < 2 * n implies #[trigger] steps_for(text)[k]
                == steps_for(shorter)[k] by {
                assert(k / 2 < n) by (nonlinear_arith)
                    requires 0 <= k < 2 * n;
            }
        }
        assert(steps.drop_last().last() == InjectStep::Insert(text.last()));
        assert(steps.last() == InjectStep::Pause(KEYSTROKE_DELAY_MS));
        assert(inserted(steps) == inserted(steps.drop_last()));
        assert(inserted(steps) =~= shorter.push(text.last()));
    }
}

/// Typing the empty text takes no step at all, so neither an insertion nor a
/// pause.
pub proof fn lemma_empty_text_takes_no_steps()
    ensures
        steps_for(Seq::<char>::empty()) == Seq::<InjectStep>::empty(),
{
    assert(steps_for(Seq::<char>::empty()) =~= Seq::<InjectStep>::empty());
}

/// A text being typed: the characters to insert and how many steps were taken.
pub struct Injection {
    chars: Vec<char>,
    typed: usize,
    pausing: bool,
}

impl Injection {
    /// The characters this injection inserts.
    pub closed spec fn text(&self) -> Seq<char> {
        self.chars@
    }

    /// How many steps of `steps_for(self.text())` were handed out so far.
    pub closed spec fn taken(&self) -> nat {
        if self.pausing {
            (2 * self.typed - 1) as nat
        } else {
            (2 * self.typed) as nat
        }
    }

    pub closed spec fn wf(&self) -> bool {
        &&& self.typed <= self.chars@.len()
        &&& self.pausing ==> self.typed > 0
    }

    /// Starts typing `text`. When the input backend could not be opened the
    /// injection types nothing: failure is absorbed, not reported.
    pub fn new(text: &str, backend_ready: bool) -> (r: Injection)
        ensures
            r.wf(),
            r.taken() == 0,
            r.text() == (if backend_ready {
                text@
            } else {
                Seq::<char>::empty()
            }),
    {
        let mut chars: Vec<char> = Vec::new();
        if backend_ready {
            let n = text.unicode_len();
            let mut i: usize = 0;
            while i < n
                invariant
                    n == text@.len(),
                    i <= n,
                    chars@ == text@.subrange(0, i as int),
                decreases n - i,
            {
                chars.push(text.get_char(i));
                i = i + 1;
            }
            assert(chars@ == text@);
        }
        Injection { chars, typed: 0, pausing: false }
    }

    /// Hands out the next step, or `Done` once every step was handed out.
    /// Whether the host managed to perform earlier steps does not matter:
    /// a failed insertion is skipped over, never retried or reported.
    pub fn next_step(&mut self) -> (r: InjectStep)
        requires
            old(self).wf(),
        ensures
            final(self).wf(),
            final(self).text() == old(self).text(),
            old(self).taken() < steps_for(old(self).text()).len() ==> {
                &&& r == steps_for(old(self).text())[old(self).taken() as int]
                &&& final(self).taken() == old(self).taken() + 1
            },
            old(self).taken() >= steps_for(old(self).text()).len() ==> {
                &&& r == InjectStep::Done
                &&& final(self).taken() == old(self).taken()
            },
    {
        let ghost t = self.typed as int;
        if self.pausing {
            proof {
                assert((2 * t - 1) % 2 == 1) by (nonlinear_arith)
                    requires t > 0;
            }
            self.pausing = false;
            InjectStep::Pause(KEYSTROKE_DELAY_MS)
        } else if self.typed < self.chars.len() {
            proof {
                assert((2 * t) % 2 == 0 && (2 * t) / 2 == t) by (nonlinear_arith);
            }
            let c = self.chars[self.typed];
            self.typed = self.typed + 1;
            self.pausing = true;
            InjectStep::Insert(c)
        } else {
            InjectStep::Done
        }
    }
}

/// Lets one injection run at a time, so that two texts never interleave
/// their keystrokes at the focus target. A request that arrives while
/// another is typing is turned away.
pub struct InjectorSlot {
    busy: bool,
}

impl InjectorSlot {
    /// Whether an injection holds the slot.
    pub closed spec fn held(&self) -> bool {
        self.busy
    }

    pub fn new() -> (r: InjectorSlot)
        ensures
            !r.held(),
    {
        InjectorSlot { busy: false }
    }

    pub fn is_busy(&self) -> (r: bool)
        ensures
            r == self.held(),
    {
        self.busy
    }

    /// Claims the slot for a new injection. Succeeds exactly when the slot
    /// was free; either way the slot is held afterwards.
    pub fn try_begin(&mut self) -> (r: bool)
        ensures
            r == !old(self).held(),
            final(self).held(),
    {
        if self.busy {
            false
        } else {
            self.busy = true;
            true
        }
    }

    /// Gives the slot back once the injection that held it has finished.
    pub fn finish(&mut self)
        ensures
            !final(self).held(),
    {
        self.busy = false;
    }
}

} // verus!
