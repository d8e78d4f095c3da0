//! The scrollback buffer: an append-only log of lines and a viewport onto it.
use vstd::prelude::*;

use crate::text::views;

verus! {

/// The largest scroll offset for `len` lines shown `height` at a time.
pub open spec fn max_scroll_of(len: nat, height: nat) -> nat {
    if len > height {
        (len - height) as nat
    } else {
        0
    }
}

/// The smaller of two naturals.
pub open spec fn min_nat(a: nat, b: nat) -> nat {
    if a <= b {
        a
    } else {
        b
    }
}

/// Each line of `ls` with `p` in front of it.
pub open spec fn prefixed(p: Seq<char>, ls: Seq<Seq<char>>) -> Seq<Seq<char>> {
    ls.map_values(|l: Seq<char>| p + l)
}

/// Ordered lines of rendered text and a scroll offset into them, shown
/// through a viewport of `viewport_height` rows.
pub struct ScrollbackBuffer {
    lines: Vec<String>,
    scroll_offset: usize,
    viewport_height: usize,
}

impl ScrollbackBuffer {
    /// The lines, oldest first.
    pub closed spec fn lines_view(&self) -> Seq<Seq<char>> {
        views(self.lines@)
    }

    /// Index of the first visible line.
    pub closed spec fn offset(&self) -> nat {
        self.scroll_offset as nat
    }

    /// Number of rows in the viewport.
    pub closed spec fn height(&self) -> nat {
        self.viewport_height as nat
    }

    /// The largest offset that the current lines and viewport allow.
    pub open spec fn max_scroll_spec(&self) -> nat {
        max_scroll_of(self.lines_view().len(), self.height())
    }

    /// The viewport is non-empty and the offset lies in `[0, max_scroll]`.
    pub open spec fn wf(&self) -> bool {
        &&& self.height() > 0
        &&& self.offset() <= self.max_scroll_spec()
    }

    /// The lines that the viewport shows.
    pub open spec fn visible_spec(&self) -> Seq<Seq<char>> {
        self.lines_view().subrange(
            self.offset() as int,
            min_nat((self.offset() + self.height()) as nat, self.lines_view().len()) as int,
        )
    }

    /// An empty buffer with a viewport of `viewport_height` rows.
    pub fn new(viewport_height: usize) -> (r: Self)
        requires
            viewport_height > 0,
        ensures
            r.wf(),
            r.lines_view() == Seq::<Seq<char>>::empty(),
            r.offset() == 0,
            r.height() == viewport_height,
    {
        let r = ScrollbackBuffer { lines: Vec::new(), scroll_offset: 0, viewport_height };
        assert(r.lines_view() =~= Seq::<Seq<char>>::empty());
        r
    }

    /// The lines, oldest first.
    pub fn lines(&self) -> (r: &Vec<String>)
        ensures
            views(r@) == self.lines_view(),
    {
        &self.lines
    }

    /// Number of lines held.
    pub fn len(&self) -> (r: usize)
        ensures
            r == self.lines_view().len(),
    {
        self.lines.len()
    }

    /// Index of the first visible line.
    pub fn scroll_offset(&self) -> (r: usize)
        ensures
            r == self.offset(),
    {
        self.scroll_offset
    }

    /// Number of rows in the viewport.
    pub fn viewport_height(&self) -> (r: usize)
        ensures
            r == self.height(),
    {
        self.viewport_height
    }

    /// The largest scroll offset: `max(0, len - viewport_height)`.
    pub fn max_scroll(&self) -> (r: usize)
        ensures
            r == self.max_scroll_spec(),
    {
        if self.lines.len() > self.viewport_height {
            self.lines.len() - self.viewport_height
        } else {
            0
        }
    }

    /// Appends one line. A viewport pinned to the bottom follows the new
    /// bottom; one scrolled back into the history stays where it is.
    pub fn append_line(&mut self, text: String)
        requires
            old(self).wf(),
        ensures
            final(self).wf(),
            final(self).lines_view() == old(self).lines_view().push(text@),
            final(self).height() == old(self).height(),
            old(self).offset() == old(self).max_scroll_spec() ==> final(self).offset()
                == final(self).max_scroll_spec(),
            old(self).offset() != old(self).max_scroll_spec() ==> final(self).offset()
                == old(self).offset(),
    {
        let at_bottom = self.scroll_offset == self.max_scroll();
        let ghost before = self.lines@;
        self.lines.push(text);
        assert(views(self.lines@) =~= views(before).push(text@));
        if at_bottom {
            self.scroll_offset = self.max_scroll();
        }
    }

    /// Appends each line of `lines`, in order, with `prefix` in front of it,
    /// keeping the bottom pinned as `append_line` does.
    pub fn append_lines(&mut self, lines: &Vec<String>, prefix: &str)
        requires
            old(self).wf(),
        ensures
            final(self).wf(),
            final(self).lines_view() == old(self).lines_view() + prefixed(prefix@, views(lines@)),
            final(self).height() == old(self).height(),
            old(self).offset() == old(self).max_scroll_spec() ==> final(self).offset()
                == final(self).max_scroll_spec(),
            old(self).offset() != old(self).max_scroll_spec() ==> final(self).offset()
                == old(self).offset(),
    {
        let mut i: usize = 0;
        while i < lines.len()
            invariant
                self.wf(),
                i <= lines@.len(),
                self.height() == old(self).height(),
                self.lines_view() == old(self).lines_view() + prefixed(
                    prefix@,
                    views(lines@).subrange(0, i as int),
                ),
                old(self).offset() == old(self).max_scroll_spec() ==> self.offset()
                    == self.max_scroll_spec(),
                old(self).offset() != old(self).max_scroll_spec() ==> (self.offset()
                    == old(self).offset() && self.offset() < self.max_scroll_spec()),
            decreases lines@.len() - i,
        {
            let mut line = String::from_str(prefix);
            line.append(lines[i].as_str());
            let ghost before = self.lines_view();
            self.append_line(line);
            assert(prefixed(prefix@, views(lines@).subrange(0, i + 1)) =~= prefixed(
                prefix@,
                views(lines@).subrange(0, i as int),
            ).push(prefix@ + lines@[i as int]@));
            assert(self.lines_view() =~= old(self).lines_view() + prefixed(
                prefix@,
                views(lines@).subrange(0, i + 1),
            ));
            i = i + 1;
        }
        assert(views(lines@).subrange(0, i as int) =~= views(lines@));
    }

    /// Moves the viewport `n` lines towards the oldest line, stopping at the top.
    pub fn scroll_up(&mut self, n: usize)
        requires
            old(self).wf(),
        ensures
            final(self).wf(),
            final(self).lines_view() == old(self).lines_view(),
            final(self).height() == old(self).height(),
            final(self).offset() == (if n >= old(self).offset() {
                0
            } else {
                old(self).offset() - n
            }),
    {
        if n >= self.scroll_offset {
            self.scroll_offset = 0;
        } else {
            self.scroll_offset = self.scroll_offset - n;
        }
    }

    /// Moves the viewport `n` lines towards the newest line, stopping at the
    /// bottom.
    pub fn scroll_down(&mut self, n: usize)
        requires
            old(self).wf(),
        ensures
            final(self).wf(),
            final(self).lines_view() == old(self).lines_view(),
            final(self).height() == old(self).height(),
            final(self).offset() == min_nat((old(self).offset() + n) as nat, old(self).max_scroll_spec()),
    {
        let max = self.max_scroll();
        if n >= max - self.scroll_offset {
            self.scroll_offset = max;
        } else {
            self.scroll_offset = self.scroll_offset + n;
        }
    }

    /// Pins the viewport to the newest lines.
    pub fn scroll_to_bottom(&mut self)
        requires
            old(self).wf(),
        ensures
            final(self).wf(),
            final(self).lines_view() == old(self).lines_view(),
            final(self).height() == old(self).height(),
            final(self).offset() == final(self).max_scroll_spec(),
    {
        self.scroll_offset = self.max_scroll();
    }

    /// Sets the viewport height and clamps the offset to the new maximum.
    pub fn resize(&mut self, new_height: usize)
        requires
            old(self).wf(),
            new_height > 0,
        ensures
            final(self).wf(),
            final(self).lines_view() == old(self).lines_view(),
            final(self).height() == new_height,
            final(self).offset() == min_nat(old(self).offset(), final(self).max_scroll_spec()),
    {
        self.viewport_height = new_height;
        let max = self.max_scroll();
        if self.scroll_offset > max {
            self.scroll_offset = max;
        }
    }

    /// The at most `viewport_height` lines starting at the scroll offset.
    pub fn visible_slice(&self) -> (r: Vec<String>)
        requires
            self.wf(),
        ensures
            views(r@) == self.visible_spec(),
    {
        let len = self.lines.len();
        let end = if self.viewport_height >= len - self.scroll_offset {
            len
        } else {
            self.scroll_offset + self.viewport_height
        };
        let mut out: Vec<String> = Vec::new();
        let mut i: usize = self.scroll_offset;
        while i < end
            invariant
                self.scroll_offset <= i <= end <= len,
                len == self.lines@.len(),
                end == min_nat((self.offset() + self.height()) as nat, self.lines_view().len()),
                views(out@) == views(self.lines@).subrange(self.scroll_offset as int, i as int),
            decreases end - i,
        {
            let line = self.lines[i].clone();
            assert(line@ == views(self.lines@)[i as int]);
            let ghost prev = out@;
            out.push(line);
            assert(views(out@) =~= views(prev).push(line@));
            assert(views(out@) =~= views(self.lines@).subrange(
                self.scroll_offset as int,
                i + 1,
            ));
            i = i + 1;
        }
        out
    }
}

} // verus!
