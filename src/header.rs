//! The header's texts and the decision of what goes on the line.

use vstd::prelude::*;
use vstd::utf8::encode_utf8;
use crate::clock_text::{
    append_decimal, append_two_digits, days_text, elapsed_text, SECONDS_IN_DAY,
};

verus! {

/// The counters that the header reports, observed at one instant.
pub struct UIState {
    pub total_bytes_uploaded: u64,
    pub total_bytes_downloaded: u64,
    /// Totals since the start when set; a rate per second otherwise.
    pub cumulative_mode: bool,
}

/// A span of time: whole seconds and the nanoseconds beyond them.
pub struct ElapsedTime {
    pub secs: u64,
    pub subsec_nanos: u32,
}

impl ElapsedTime {
    pub open spec fn well_formed(&self) -> bool {
        self.subsec_nanos < 1_000_000_000
    }

    pub fn new(secs: u64, subsec_nanos: u32) -> (r: ElapsedTime)
        requires
            subsec_nanos < 1_000_000_000,
        ensures
            r.well_formed(),
            r.secs == secs,
            r.subsec_nanos == subsec_nanos,
    {
        ElapsedTime { secs, subsec_nanos }
    }

    /// The whole seconds; the fraction is dropped, not rounded.
    pub fn as_secs(&self) -> (r: u64)
        ensures
            r == self.secs,
    {
        self.secs
    }
}

/// A byte count to be written out by the byte-quantity formatter, as a plain
/// quantity or as a rate per second.
#[derive(Clone, Copy, Debug, PartialEq, Eq, Structural)]
pub struct ByteQuantity {
    pub bytes: u64,
    pub as_rate: bool,
}

#[derive(Clone, Copy, Debug, PartialEq, Eq, Structural)]
pub enum Alignment {
    Left,
    Right,
}

#[derive(Clone, Copy, Debug, PartialEq, Eq, Structural)]
pub enum Emphasis {
    Normal,
    Bold,
}

/// The header's color: one for a running monitor, one for a paused one.
#[derive(Clone, Copy, Debug, PartialEq, Eq, Structural)]
pub enum ColorTag {
    Active,
    Paused,
}

/// One styled run of text to be painted into the header's region.
pub struct RenderedFragment {
    pub text: String,
    pub alignment: Alignment,
    pub emphasis: Emphasis,
    pub color: ColorTag,
}

/// What a fragment shows: its text, alignment, emphasis and color.
pub type FragmentView = (Seq<char>, Alignment, Emphasis, ColorTag);

pub open spec fn fragment_view(f: RenderedFragment) -> FragmentView {
    (f.text@, f.alignment, f.emphasis, f.color)
}

/// The length in bytes of the UTF-8 encoding of `s`, as `str::len` gives it.
pub open spec fn byte_len(s: Seq<char>) -> nat {
    (encode_utf8(s).len() as usize) as nat
}

/// The marker that ends the bandwidth text while paused.
pub open spec fn paused_suffix(paused: bool) -> Seq<char> {
    if paused {
        " [PAUSED]"@
    } else {
        Seq::empty()
    }
}

/// `" Total Up / Down: <up> / <down>"`, then the paused marker if paused.
pub open spec fn bandwidth_text(up: Seq<char>, down: Seq<char>, paused: bool) -> Seq<char> {
    " Total Up / Down: "@ + up + " / "@ + down + paused_suffix(paused)
}

/// Whether the elapsed-time text fits beside the bandwidth text, with one
/// column between them, on a line `width` columns wide.
pub open spec fn elapsed_fits(bandwidth: Seq<char>, elapsed: Seq<char>, width: nat) -> bool {
    byte_len(bandwidth) + byte_len(elapsed) + 1 <= width
}

/// The fragments in the order they are painted: the elapsed time on the
/// right where it fits, then the bandwidth on the left.
pub open spec fn header_layout(
    bandwidth: Seq<char>,
    elapsed: Seq<char>,
    width: nat,
    color: ColorTag,
) -> Seq<FragmentView> {
    if elapsed_fits(bandwidth, elapsed, width) {
        seq![
            (elapsed, Alignment::Right, Emphasis::Bold, color),
            (bandwidth, Alignment::Left, Emphasis::Bold, color),
        ]
    } else {
        seq![(bandwidth, Alignment::Left, Emphasis::Bold, color)]
    }
}

pub open spec fn ends_with(s: Seq<char>, suffix: Seq<char>) -> bool {
    suffix.len() <= s.len() && s.subrange(s.len() - suffix.len(), s.len() as int) == suffix
}

/// The header: a snapshot of the counters, the time elapsed, and whether
/// the monitor is paused.
pub struct HeaderDetails<'a> {
    pub state: &'a UIState,
    pub elapsed_time: ElapsedTime,
    pub paused: bool,
}

impl<'a> HeaderDetails<'a> {
    pub open spec fn color_spec(&self) -> ColorTag {
        if self.paused {
            ColorTag::Paused
        } else {
            ColorTag::Active
        }
    }

    pub open spec fn elapsed_spec(&self) -> Seq<char> {
        elapsed_text(self.elapsed_time.secs as nat)
    }

    /// What `render` yields, given the formatter's texts for the totals.
    pub open spec fn layout_spec(&self, up: Seq<char>, down: Seq<char>, width: nat) -> Seq<
        FragmentView,
    > {
        header_layout(
            bandwidth_text(up, down, self.paused),
            self.elapsed_spec(),
            width,
            self.color_spec(),
        )
    }

    /// The two byte counts and how the formatter is to write them: as a rate
    /// unless the totals are shown as they are.
    pub fn bandwidth_quantities(&self) -> (r: (ByteQuantity, ByteQuantity))
        ensures
            r.0.bytes == self.state.total_bytes_uploaded,
            r.1.bytes == self.state.total_bytes_downloaded,
            r.0.as_rate == !self.state.cumulative_mode,
            r.1.as_rate == !self.state.cumulative_mode,
    {
        let as_rate = !self.state.cumulative_mode;
        (
            ByteQuantity { bytes: self.state.total_bytes_uploaded, as_rate },
            ByteQuantity { bytes: self.state.total_bytes_downloaded, as_rate },
        )
    }

    /// The bandwidth text, from the formatter's texts for the upload and
    /// download figures.
    pub fn bandwidth_string(&self, up: &str, down: &str) -> (r: String)
        ensures
            r@ == bandwidth_text(up@, down@, self.paused),
    {
        let mut s = " Total Up / Down: ".to_owned();
        s.append(up);
        s.append(" / ");
        s.append(down);
        if self.paused {
            s.append(" [PAUSED]");
        } else {
            assert(s@ =~= s@ + Seq::<char>::empty());
        }
        s
    }

    /// The days prefix of the elapsed-time text.
    pub fn days_string(&self) -> (r: String)
        ensures
            r@ == days_text(self.elapsed_time.secs as nat / 86400),
    {
        let days = self.elapsed_time.as_secs() / SECONDS_IN_DAY;
        if days == 0 {
            String::new()
        } else if days == 1 {
            "1 day, ".to_owned()
        } else {
            let mut s = String::new();
            append_decimal(&mut s, days);
            s.append(" days, ");
            assert(s@ =~= days_text(days as nat));
            s
        }
    }

    /// The elapsed-time text, `"[<days prefix>]HH:MM:SS "`.
    pub fn elapsed_time_string(&self) -> (r: String)
        ensures
            r@ == self.elapsed_spec(),
    {
        let secs = self.elapsed_time.as_secs();
        let mut s = self.days_string();
        append_two_digits(&mut s, (secs % SECONDS_IN_DAY) / 3600);
        s.append(":");
        append_two_digits(&mut s, (secs % 3600) / 60);
        s.append(":");
        append_two_digits(&mut s, secs % 60);
        s.append(" ");
        s
    }

    /// The color of both fragments.
    pub fn color(&self) -> (r: ColorTag)
        ensures
            r == self.color_spec(),
    {
        if self.paused {
            ColorTag::Paused
        } else {
            ColorTag::Active
        }
    }

    /// The fragments to paint on a line `width` columns wide, in order: the
    /// elapsed time, right-aligned, only where it fits whole beside the
    /// bandwidth text; then the bandwidth text, left-aligned. `up` and `down`
    /// are the formatter's texts for `bandwidth_quantities`.
    pub fn render(&self, up: &str, down: &str, width: u16) -> (r: Vec<RenderedFragment>)
        ensures
            r.len() == self.layout_spec(up@, down@, width as nat).len(),
            forall|i: int|
                0 <= i < r.len() ==> fragment_view(#[trigger] r[i]) == self.layout_spec(
                    up@,
                    down@,
                    width as nat,
                )[i],
    {
        let bandwidth = self.bandwidth_string(up, down);
        let elapsed_time = self.elapsed_time_string();
        let bandwidth_len = bandwidth.as_str().len();
        let elapsed_len = elapsed_time.as_str().len();
        let w = width as usize;
        let print_elapsed_time = bandwidth_len < w && elapsed_len < w - bandwidth_len;
        let color = self.color();
        let mut fragments: Vec<RenderedFragment> = Vec::new();
        if print_elapsed_time {
            fragments.push(
                RenderedFragment {
                    text: elapsed_time,
                    alignment: Alignment::Right,
                    emphasis: Emphasis::Bold,
                    color,
                },
            );
        }
        fragments.push(
            RenderedFragment {
                text: bandwidth,
                alignment: Alignment::Left,
                emphasis: Emphasis::Bold,
                color,
            },
        );
        fragments
    }
}

/// Whether a download figure's text would itself pass for the paused marker
/// at the end of the bandwidth text.
pub open spec fn looks_like_paused_marker(down: Seq<char>) -> bool {
    ends_with(down, " [PAUSED]"@) || down == "[PAUSED]"@
}

/// The bandwidth text ends with `" [PAUSED]"` exactly when the monitor is
/// paused, and every fragment painted then carries the paused color, and
/// only then. (A running header whose download text already looks like the
/// marker is left out.)
pub proof fn lemma_paused_marks_header(h: HeaderDetails, up: Seq<char>, down: Seq<char>, width: nat)
    requires
        h.paused || !looks_like_paused_marker(down),
    ensures
        h.paused <==> ends_with(bandwidth_text(up, down, h.paused), " [PAUSED]"@),
        forall|i: int|
            0 <= i < h.layout_spec(up, down, width).len() ==> ((
            #[trigger] h.layout_spec(up, down, width)[i]).3 == ColorTag::Paused <==> h.paused),
{
    reveal_strlit(" [PAUSED]");
    reveal_strlit("[PAUSED]");
    reveal_strlit(" / ");
    let t = bandwidth_text(up, down, h.paused);
    let m = " [PAUSED]"@;
    if h.paused {
        let a = " Total Up / Down: "@ + up + " / "@ + down;
        assert(t =~= a + m);
        assert(t.subrange(t.len() - 9, t.len() as int) =~= m);
    } else {
        let a = " Total Up / Down: "@ + up + " / "@;
        assert(t =~= a + down);
        if ends_with(t, m) {
            let dl = down.len() as int;
            if dl >= 9 {
                assert(t.subrange(t.len() - 9, t.len() as int) =~= down.subrange(dl - 9, dl));
            } else if dl == 8 {
                assert(down =~= t.subrange(t.len() - 8, t.len() as int));
                assert(t.subrange(t.len() - 8, t.len() as int) =~= m.subrange(1, 9));
                assert("[PAUSED]"@ =~= m.subrange(1, 9));
            } else {
                assert(t[a.len() - 2] == '/');
                assert(t.subrange(t.len() - 9, t.len() as int)[7 - dl] == t[a.len() - 2]);
                assert(m[7 - dl] != '/');
            }
        }
    }
}

/// The elapsed-time fragment is painted exactly when the line is at least
/// one column wider than the two texts together; the bandwidth fragment is
/// always painted, last.
pub proof fn lemma_elapsed_shown_iff_fits(
    h: HeaderDetails,
    up: Seq<char>,
    down: Seq<char>,
    width: nat,
)
    ensures
        h.layout_spec(up, down, width).len() == 2 <==> width >= byte_len(
            bandwidth_text(up, down, h.paused),
        ) + byte_len(h.elapsed_spec()) + 1,
        h.layout_spec(up, down, width).len() == 2 ==> h.layout_spec(up, down, width)[0].0
            == h.elapsed_spec(),
        h.layout_spec(up, down, width).last() == (
        bandwidth_text(up, down, h.paused),
        Alignment::Left,
        Emphasis::Bold,
        h.color_spec(),
        ),
{
}

/// The fragments depend on the counters, the mode, the whole seconds, the
/// pause flag, the figures' texts and the width alone: rendering the same
/// input twice gives the same fragments.
pub proof fn lemma_render_repeatable(
    h1: HeaderDetails,
    h2: HeaderDetails,
    up: Seq<char>,
    down: Seq<char>,
    width: nat,
)
    requires
        *h1.state == *h2.state,
        h1.elapsed_time.secs == h2.elapsed_time.secs,
        h1.paused == h2.paused,
    ensures
        h1.layout_spec(up, down, width) == h2.layout_spec(up, down, width),
{
}

} // verus!
