//! A pull-based state machine that drops `//` line comments from a byte
//! sequence while keeping every other byte, newlines included.

use vstd::prelude::*;

verus! {

/// The slash byte, `/`.
pub const SLASH: u8 = 0x2f;

/// The newline byte, `\n`.
pub const NEWLINE: u8 = 0x0a;

/// Where the filter stands between two bytes of input.
pub enum State {
    /// Outside a comment, with nothing held back.
    Char,
    /// A `/` was read and held back until the next byte decides its role.
    PotentialLineComment(u8),
    /// Inside a confirmed `//` comment, discarding bytes up to a newline.
    LineComment,
}

/// The abstract state of the filter.
pub enum Mode {
    Normal,
    Pending,
    InComment,
}

impl State {
    /// The state with the held byte left out.
    pub open spec fn mode(&self) -> Mode {
        match self {
            State::Char => Mode::Normal,
            State::PotentialLineComment(_) => Mode::Pending,
            State::LineComment => Mode::InComment,
        }
    }
}

/// The output that the filter produces from `s` when it starts in `m`.
pub open spec fn filter_from(m: Mode, s: Seq<u8>) -> Seq<u8>
    decreases s.len(),
{
    if s.len() == 0 {
        match m {
            Mode::Pending => seq![SLASH],
            _ => Seq::empty(),
        }
    } else {
        let c = s[0];
        let rest = s.drop_first();
        match m {
            Mode::Normal => if c == SLASH {
                filter_from(Mode::Pending, rest)
            } else {
                seq![c] + filter_from(Mode::Normal, rest)
            },
            Mode::Pending => if c == SLASH {
                filter_from(Mode::InComment, rest)
            } else {
                seq![SLASH, c] + filter_from(Mode::Normal, rest)
            },
            Mode::InComment => if c == NEWLINE {
                seq![NEWLINE] + filter_from(Mode::Normal, rest)
            } else {
                filter_from(Mode::InComment, rest)
            },
        }
    }
}

/// The whole input with every `//` line comment removed; the newline that
/// ends a comment stays.
pub open spec fn strip_comments(s: Seq<u8>) -> Seq<u8> {
    filter_from(Mode::Normal, s)
}

/// Wraps a byte sequence and hands out its bytes with line comments left out.
pub struct ExcludingComments {
    state: State,
    buffer: Option<u8>,
    iter: Vec<u8>,
    pos: usize,
}

impl ExcludingComments {
    /// The input bytes not yet taken: the replay slot, then the unread source.
    pub closed spec fn unread(&self) -> Seq<u8> {
        let tail = self.iter@.subrange(self.pos as int, self.iter@.len() as int);
        match self.buffer {
            Some(b) => seq![b] + tail,
            None => tail,
        }
    }

    /// The bytes that the filter has still to hand out.
    pub closed spec fn rest(&self) -> Seq<u8> {
        filter_from(self.state.mode(), self.unread())
    }

    /// The read position stays within the source, a held byte is a `/`, and
    /// the replay slot holds a non-slash byte only in the `Char` state.
    pub closed spec fn wf(&self) -> bool {
        &&& self.pos <= self.iter@.len()
        &&& self.state matches State::PotentialLineComment(h) ==> h == SLASH
        &&& self.buffer is Some ==> self.state is Char && self.buffer->Some_0 != SLASH
    }

    /// A filter over `iter`, in its initial state.
    pub fn new_from_iter(iter: Vec<u8>) -> (r: Self)
        ensures
            r.wf(),
            r.rest() == strip_comments(iter@),
    {
        let r = ExcludingComments { state: State::Char, buffer: None, iter, pos: 0 };
        assert(r.unread() =~= iter@);
        r
    }

    /// Takes the next input byte: from the replay slot if it holds one, else
    /// from the source.
    fn take_byte(&mut self) -> (r: Option<u8>)
        requires
            old(self).wf(),
        ensures
            final(self).state == old(self).state,
            final(self).buffer is None,
            final(self).pos <= final(self).iter@.len(),
            match r {
                None => old(self).unread().len() == 0 && final(self).unread().len() == 0,
                Some(b) => old(self).unread() == seq![b] + final(self).unread(),
            },
    {
        match self.buffer.take() {
            Some(b) => {
                proof {
                    assert(old(self).unread() =~= seq![b] + self.unread());
                }
                Some(b)
            },
            None => {
                if self.pos < self.iter.len() {
                    let b = self.iter[self.pos];
                    self.pos = self.pos + 1;
                    proof {
                        assert(old(self).unread() =~= seq![b] + self.unread());
                    }
                    Some(b)
                } else {
                    None
                }
            },
        }
    }

    /// Hands out the next byte of the filtered output, or `None` once it is
    /// exhausted.
    pub fn next(&mut self) -> (r: Option<u8>)
        requires
            old(self).wf(),
        ensures
            final(self).wf(),
            match r {
                None => old(self).rest().len() == 0 && final(self).rest().len() == 0,
                Some(b) => old(self).rest() == seq![b] + final(self).rest(),
            },
    {
        loop
            invariant
                self.wf(),
                self.rest() == old(self).rest(),
            decreases self.unread().len(),
        {
            let ghost before = self.unread();
            let next = self.take_byte();
            proof {
                if let Some(c) = next {
                    assert(before.drop_first() =~= self.unread());
                    assert(before[0] == c);
                }
            }
            match next {
                None => {
                    match self.state {
                        State::PotentialLineComment(held) => {
                            self.state = State::Char;
                            return Some(held);
                        },
                        _ => {
                            return None;
                        },
                    }
                },
                Some(c) => {
                    match self.state {
                        State::Char => {
                            if c == SLASH {
                                self.state = State::PotentialLineComment(c);
                            } else {
                                return Some(c);
                            }
                        },
                        State::PotentialLineComment(held) => {
                            if c == SLASH {
                                self.state = State::LineComment;
                            } else {
                                let ghost tail = self.unread();
                                self.buffer = Some(c);
                                self.state = State::Char;
                                proof {
                                    assert(self.unread().drop_first() =~= tail);
                                    assert(self.unread()[0] == c);
                                    assert(old(self).rest() =~= seq![held] + self.rest());
                                }
                                return Some(held);
                            }
                        },
                        State::LineComment => {
                            if c == NEWLINE {
                                self.state = State::Char;
                                return Some(c);
                            }
                        },
                    }
                },
            }
        }
    }

    /// Pulls every remaining byte of the filtered output, in order.
    pub fn into_filtered(self) -> (r: Vec<u8>)
        requires
            self.wf(),
        ensures
            r@ == self.rest(),
    {
        let mut it = self;
        let mut out: Vec<u8> = Vec::new();
        loop
            invariant
                it.wf(),
                out@ + it.rest() == self.rest(),
            decreases it.rest().len(),
        {
            match it.next() {
                Some(b) => {
                    proof {
                        assert(out@ + seq![b] + it.rest() =~= self.rest());
                    }
                    out.push(b);
                },
                None => {
                    assert(out@ =~= self.rest());
                    return out;
                },
            }
        }
    }
}

/// Wraps `input` in a filter that leaves out its line comments.
pub fn exclude_comments(input: Vec<u8>) -> (r: ExcludingComments)
    ensures
        r.wf(),
        r.rest() == strip_comments(input@),
{
    ExcludingComments::new_from_iter(input)
}

} // verus!
