//! Scroll position of the message view.
//!
//! The view follows the newest content until the user scrolls. From then on
//! the position is the user's, until a frame finds it at the bottom again.

use vstd::prelude::*;

verus! {

/// Lines by which the bottom position exceeds content length less viewport
/// height: the room that the frame around the messages takes.
pub const SCROLL_MARGIN: usize = 2;

/// The bottom position for `content_length` lines seen through a viewport of
/// `viewport_height` lines: content length less viewport height plus
/// [`SCROLL_MARGIN`], not below zero and not beyond what a position can hold.
pub open spec fn bottom_of(content_length: nat, viewport_height: nat) -> nat {
    let raw = content_length + SCROLL_MARGIN - viewport_height;
    if raw < 0 {
        0
    } else if raw > usize::MAX {
        usize::MAX as nat
    } else {
        raw as nat
    }
}

/// Computes [`bottom_of`].
pub fn bottom(content_length: usize, viewport_height: usize) -> (position: usize)
    ensures
        position == bottom_of(content_length as nat, viewport_height as nat),
{
    if viewport_height >= SCROLL_MARGIN {
        content_length.saturating_sub(viewport_height - SCROLL_MARGIN)
    } else {
        content_length.saturating_add(SCROLL_MARGIN - viewport_height)
    }
}

/// Mathematical model of a [`ScrollState`].
pub struct ScrollModel {
    /// First line shown.
    pub offset: nat,
    /// Number of lines that the last frame had to show.
    pub content_length: nat,
    /// Height of the viewport in the last frame.
    pub viewport_height: nat,
    /// Whether the user has taken over the position.
    pub manual: bool,
}

impl ScrollModel {
    /// The bottom position as of the last frame.
    pub open spec fn bottom(self) -> nat {
        bottom_of(self.content_length, self.viewport_height)
    }

    /// The position lies between the top and the bottom.
    pub open spec fn wf(self) -> bool {
        self.offset <= self.bottom()
    }

    /// The state before the first frame: at the top, following.
    pub open spec fn initial() -> ScrollModel {
        ScrollModel { offset: 0, content_length: 0, viewport_height: 0, manual: false }
    }

    /// The user scrolls one line up.
    pub open spec fn up(self) -> ScrollModel {
        ScrollModel {
            offset: if self.offset > 0 {
                (self.offset - 1) as nat
            } else {
                0
            },
            manual: true,
            ..self
        }
    }

    /// The user scrolls one line down, not past the bottom.
    pub open spec fn down(self) -> ScrollModel {
        ScrollModel {
            offset: if self.offset < self.bottom() {
                self.offset + 1
            } else {
                self.bottom()
            },
            manual: true,
            ..self
        }
    }

    /// A frame of `content_length` lines in a viewport of `viewport_height`
    /// lines is laid out. A following view moves to the new bottom. A view
    /// under the user's hand stays, unless it has reached the new bottom: then
    /// it rests there and follows again.
    pub open spec fn frame(self, content_length: nat, viewport_height: nat) -> ScrollModel {
        let bottom = bottom_of(content_length, viewport_height);
        let manual = self.manual && self.offset < bottom;
        ScrollModel {
            offset: if manual {
                self.offset
            } else {
                bottom
            },
            content_length,
            viewport_height,
            manual,
        }
    }
}

/// View offset with the flag that tells whether the user holds it.
pub struct ScrollState {
    offset: usize,
    content_length: usize,
    viewport_height: usize,
    manual: bool,
}

impl View for ScrollState {
    type V = ScrollModel;

    closed spec fn view(&self) -> ScrollModel {
        ScrollModel {
            offset: self.offset as nat,
            content_length: self.content_length as nat,
            viewport_height: self.viewport_height as nat,
            manual: self.manual,
        }
    }
}

impl ScrollState {
    /// The position lies between the top and the bottom.
    pub open spec fn wf(&self) -> bool {
        self@.wf()
    }

    /// The state before the first frame.
    pub fn new() -> (state: Self)
        ensures
            state.wf(),
            state@ == ScrollModel::initial(),
    {
        ScrollState { offset: 0, content_length: 0, viewport_height: 0, manual: false }
    }

    /// First line shown.
    pub fn offset(&self) -> (offset: usize)
        ensures
            offset == self@.offset,
    {
        self.offset
    }

    /// Number of lines that the last frame had to show.
    pub fn content_length(&self) -> (length: usize)
        ensures
            length == self@.content_length,
    {
        self.content_length
    }

    /// Whether the user holds the position.
    pub fn is_manual(&self) -> (manual: bool)
        ensures
            manual == self@.manual,
    {
        self.manual
    }

    /// The user scrolls one line up: the view is theirs from now on.
    pub fn scroll_up(&mut self)
        requires
            old(self).wf(),
        ensures
            final(self).wf(),
            final(self)@ == old(self)@.up(),
            final(self)@.manual,
    {
        self.offset = self.offset.saturating_sub(1);
        self.manual = true;
    }

    /// The user scrolls one line down, not past the bottom: the view is
    /// theirs from now on.
    pub fn scroll_down(&mut self)
        requires
            old(self).wf(),
        ensures
            final(self).wf(),
            final(self)@ == old(self)@.down(),
            final(self)@.manual,
    {
        let limit: usize = bottom(self.content_length, self.viewport_height);
        if self.offset < limit {
            self.offset += 1;
        } else {
            self.offset = limit;
        }
        self.manual = true;
    }

    /// Lays out a frame of `content_length` lines in a viewport of
    /// `viewport_height` lines. Afterwards the user holds the position exactly
    /// if they held it before and it lies above the new bottom.
    pub fn frame(&mut self, content_length: usize, viewport_height: usize)
        ensures
            final(self).wf(),
            final(self)@ == old(self)@.frame(content_length as nat, viewport_height as nat),
            final(self)@.manual <==> old(self)@.manual && old(self)@.offset < bottom_of(
                content_length as nat,
                viewport_height as nat,
            ),
            !final(self)@.manual ==> final(self)@.offset == final(self)@.bottom(),
    {
        let limit: usize = bottom(content_length, viewport_height);
        if !self.manual || self.offset >= limit {
            self.offset = limit;
            self.manual = false;
        }
        self.content_length = content_length;
        self.viewport_height = viewport_height;
    }
}

/// A scroll by the user, up or down, puts the position in the user's hand.
/// A frame leaves it there exactly if it was there and lies above the
/// frame's bottom; a position that has reached the bottom follows again.
pub proof fn lemma_manual_flag(state: ScrollModel, content_length: nat, viewport_height: nat)
    ensures
        state.up().manual,
        state.down().manual,
        state.frame(content_length, viewport_height).manual <==> state.manual && state.offset
            < bottom_of(content_length, viewport_height),
        state.frame(content_length, viewport_height).wf(),
{
}

} // verus!
