use vstd::prelude::*;

verus! {

/// Scroll position over the body of the record shown in detail mode.
///
/// The offset is bounded below by zero and above only by the width of `u16`.
#[derive(Clone, Copy, Debug, PartialEq, Eq, Structural)]
pub struct DetailViewport {
    pub offset: u16,
}

impl DetailViewport {
    /// A viewport at the top of the body.
    pub fn new() -> (r: DetailViewport)
        ensures
            r.offset == 0,
    {
        DetailViewport { offset: 0 }
    }

    /// Moves the view one line further into the body.
    pub fn scroll_down(&mut self)
        ensures
            final(self).offset == if old(self).offset < u16::MAX { (old(self).offset + 1) as u16 } else { u16::MAX },
    {
        self.offset = self.offset.saturating_add(1);
    }

    /// Moves the view one line back towards the top of the body.
    pub fn scroll_up(&mut self)
        ensures
            final(self).offset == if old(self).offset > 0 { (old(self).offset - 1) as u16 } else { 0 },
    {
        self.offset = self.offset.saturating_sub(1);
    }

    /// Returns to the top of the body.
    pub fn reset(&mut self)
        ensures
            final(self).offset == 0,
    {
        self.offset = 0;
    }
}

} // verus!
