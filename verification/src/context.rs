//! Diagnostic context for decode attempts.
//!
//! A [`DiagnosticContext`] is an ordered stack of trace frames. A frame is
//! pushed before a decode attempt and consulted only when the decode fails:
//! the failure then carries the full stack, oldest frame first, so a
//! diagnosis can reconstruct which interaction and which expected shape were
//! in play. The context is scoped to one decode call and discarded by the
//! caller afterwards.

use vstd::prelude::*;

verus! {

/// The mathematical content of a [`TraceFrame`].
pub struct TraceFrameModel {
    pub name: Seq<char>,
    pub expected: Seq<char>,
    pub note: Seq<char>,
}

/// One diagnostic trace frame: the name of the logical field being decoded,
/// a label for the expected shape, and a free-text note.
#[derive(Debug)]
pub struct TraceFrame {
    pub name: String,
    pub expected: String,
    pub note: String,
}

impl View for TraceFrame {
    type V = TraceFrameModel;

    open spec fn view(&self) -> TraceFrameModel {
        TraceFrameModel { name: self.name@, expected: self.expected@, note: self.note@ }
    }
}

impl Clone for TraceFrame {
    fn clone(&self) -> (res: Self)
        ensures
            res == *self,
    {
        TraceFrame {
            name: self.name.clone(),
            expected: self.expected.clone(),
            note: self.note.clone(),
        }
    }
}

/// An ordered stack of trace frames, oldest first.
#[derive(Debug)]
pub struct DiagnosticContext {
    frames: Vec<TraceFrame>,
}

impl View for DiagnosticContext {
    type V = Seq<TraceFrameModel>;

    closed spec fn view(&self) -> Seq<TraceFrameModel> {
        self.frames@.map_values(|f: TraceFrame| f@)
    }
}

impl DiagnosticContext {
    /// A context with no frames.
    pub fn new() -> (r: Self)
        ensures
            r@ == Seq::<TraceFrameModel>::empty(),
    {
        let r = DiagnosticContext { frames: Vec::new() };
        proof {
            assert(r@ =~= Seq::<TraceFrameModel>::empty());
        }
        r
    }

    /// Pushes one frame on top of the stack.
    pub fn push(&mut self, name: &str, expected: &str, note: &str)
        ensures
            final(self)@ == old(self)@.push(
                TraceFrameModel { name: name@, expected: expected@, note: note@ },
            ),
    {
        self.frames.push(
            TraceFrame {
                name: String::from_str(name),
                expected: String::from_str(expected),
                note: String::from_str(note),
            },
        );
        proof {
            assert(self@ =~= old(self)@.push(
                TraceFrameModel { name: name@, expected: expected@, note: note@ },
            ));
        }
    }

    /// A copy of the frame stack, oldest first, for inclusion in a failure.
    pub fn frames(&self) -> (r: Vec<TraceFrame>)
        ensures
            r@.map_values(|f: TraceFrame| f@) == self@,
    {
        let r = self.frames.clone();
        proof {
            assert forall|j: int| 0 <= j < self.frames@.len() implies #[trigger] r@[j]
                == self.frames@[j] by {
                assert(cloned(self.frames@[j], r@[j]));
            }
            assert(r@ =~= self.frames@);
        }
        r
    }
}

} // verus!
