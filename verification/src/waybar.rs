//! The Waybar custom-module output of the client.

use vstd::prelude::*;
use vstd::string::*;
use crate::monitor::{MonitorStatus, MonitorStatusView, statuses_view};
use crate::text::{decimal, format_decimal};

verus! {

/// What Waybar shows: the text, its tooltip, the CSS class and a percentage.
#[derive(Debug)]
pub struct WaybarOutput {
    pub text: String,
    pub tooltip: String,
    pub class: String,
    pub percentage: u8,
}

/// The mathematical content of a [`WaybarOutput`].
pub struct WaybarView {
    pub text: Seq<char>,
    pub tooltip: Seq<char>,
    pub class: Seq<char>,
    pub percentage: u8,
}

impl View for WaybarOutput {
    type V = WaybarView;

    open spec fn view(&self) -> WaybarView {
        WaybarView { text: self.text@, tooltip: self.tooltip@, class: self.class@, percentage: self.percentage }
    }
}

/// The output shown when no brightness can be shown: `N/A`, with `tooltip`,
/// in the `brightness-error` class.
pub open spec fn waybar_error(tooltip: Seq<char>) -> WaybarView {
    WaybarView { text: "N/A"@, tooltip, class: "brightness-error"@, percentage: 0 }
}

/// Builds [`waybar_error`].
pub fn error_output(tooltip: String) -> (r: WaybarOutput)
    ensures
        r@ == waybar_error(tooltip@),
{
    WaybarOutput {
        text: String::from_str("N/A"),
        tooltip,
        class: String::from_str("brightness-error"),
        percentage: 0,
    }
}

/// The sum of the brightnesses.
pub open spec fn brightness_sum(s: Seq<MonitorStatusView>) -> nat
    decreases s.len(),
{
    if s.len() == 0 { 0 } else { brightness_sum(s.drop_last()) + s.last().brightness_percent as nat }
}

/// The tooltip line of one monitor: `{name}: {brightness}%`.
pub open spec fn tooltip_line(m: MonitorStatusView) -> Seq<char> {
    m.name + ": "@ + decimal(m.brightness_percent as nat) + "%"@
}

/// The tooltip lines of the monitors, joined by line breaks.
pub open spec fn tooltip_spec(s: Seq<MonitorStatusView>) -> Seq<char>
    decreases s.len(),
{
    if s.len() == 0 {
        Seq::empty()
    } else if s.len() == 1 {
        tooltip_line(s[0])
    } else {
        tooltip_spec(s.drop_last()) + "\n"@ + tooltip_line(s.last())
    }
}

/// The average brightness, rounded down.
pub open spec fn average_brightness(s: Seq<MonitorStatusView>) -> nat {
    brightness_sum(s) / s.len()
}

/// What Waybar shows for the statuses of the monitors: `N/A` when there are
/// none; otherwise their average brightness, each monitor's brightness in
/// the tooltip, and the class `brightness-low` below 30%, `brightness` from 30%.
pub open spec fn waybar_spec(s: Seq<MonitorStatusView>) -> WaybarView {
    if s.len() == 0 {
        waybar_error("No monitors found"@)
    } else {
        let avg = average_brightness(s);
        WaybarView {
            text: decimal(avg) + "%"@,
            tooltip: tooltip_spec(s),
            class: if avg < 30 { "brightness-low"@ } else { "brightness"@ },
            percentage: if avg > 100 { 100 } else { avg as u8 },
        }
    }
}

proof fn lemma_prefix_sum(s: Seq<MonitorStatusView>, k: int)
    requires
        0 <= k <= s.len(),
    ensures
        brightness_sum(s.take(k)) <= brightness_sum(s),
    decreases s.len() - k,
{
    if k < s.len() {
        lemma_prefix_sum(s, k + 1);
        assert(s.take(k + 1).drop_last() =~= s.take(k));
    } else {
        assert(s.take(k) =~= s);
    }
}

/// Whether the average computes in 32 bits: the sum of the brightnesses
/// and the number of monitors fit in a `u32`.
pub open spec fn average_fits(s: Seq<MonitorStatusView>) -> bool {
    brightness_sum(s) <= u32::MAX && s.len() <= u32::MAX
}

/// Tells whether [`format_waybar`] computes its average without overflow.
pub fn average_computable(monitors: &[MonitorStatus]) -> (b: bool)
    ensures
        b == average_fits(statuses_view(monitors@)),
{
    let ghost s = statuses_view(monitors@);
    if monitors.len() as u64 > 0xffff_ffff {
        return false;
    }
    let mut sum: u64 = 0;
    let mut i: usize = 0;
    while i < monitors.len()
        invariant
            i <= monitors@.len(),
            monitors@.len() <= u32::MAX,
            s == statuses_view(monitors@),
            sum as nat == brightness_sum(s.take(i as int)),
        decreases monitors@.len() - i,
    {
        assert(s.take(i + 1).drop_last() =~= s.take(i as int));
        assert(sum <= 255 * i) by {
            lemma_sum_le(s.take(i as int));
        }
        sum = sum + monitors[i].brightness_percent as u64;
        i = i + 1;
    }
    assert(s.take(i as int) =~= s);
    sum <= 0xffff_ffff
}

proof fn lemma_sum_le(s: Seq<MonitorStatusView>)
    ensures
        brightness_sum(s) <= 255 * s.len(),
    decreases s.len(),
{
    if s.len() > 0 {
        lemma_sum_le(s.drop_last());
    }
}

/// The Waybar output for the statuses of the monitors.
pub fn format_waybar(monitors: &[MonitorStatus]) -> (r: WaybarOutput)
    requires
        average_fits(statuses_view(monitors@)),
    ensures
        r@ == waybar_spec(statuses_view(monitors@)),
{
    let n = monitors.len();
    if n == 0 {
        return error_output(String::from_str("No monitors found"));
    }
    let ghost s = statuses_view(monitors@);
    let mut sum: u32 = 0;
    let mut tooltip = String::new();
    let mut i: usize = 0;
    while i < n
        invariant
            n == monitors@.len(),
            average_fits(s),
            s == statuses_view(monitors@),
            i <= n,
            sum as nat == brightness_sum(s.take(i as int)),
            tooltip@ == tooltip_spec(s.take(i as int)),
        decreases n - i,
    {
        assert(s.take(i + 1).drop_last() =~= s.take(i as int));
        proof {
            lemma_prefix_sum(s, i + 1);
        }
        let m = &monitors[i];
        sum = sum + m.brightness_percent as u32;
        if i > 0 {
            tooltip.append("\n");
        }
        tooltip.append(m.name.as_str());
        tooltip.append(": ");
        let d = format_decimal(m.brightness_percent as u64);
        tooltip.append(d.as_str());
        tooltip.append("%");
        i = i + 1;
    }
    assert(s.take(n as int) =~= s);
    let avg: u32 = sum / (n as u32);
    let mut text = format_decimal(avg as u64);
    text.append("%");
    let class = if avg < 30 { String::from_str("brightness-low") } else { String::from_str("brightness") };
    WaybarOutput { text, tooltip, class, percentage: if avg > 100 { 100 } else { avg as u8 } }
}

/// The class is `brightness-low` exactly when the average is below 30%,
/// and the percentage is the average, capped at 100.
pub proof fn lemma_waybar_class(s: Seq<MonitorStatusView>)
    requires
        s.len() > 0,
    ensures
        (waybar_spec(s).class == "brightness-low"@) <==> average_brightness(s) < 30,
        waybar_spec(s).percentage <= 100,
        average_brightness(s) <= 100 ==> waybar_spec(s).percentage == average_brightness(s),
{
    reveal_strlit("brightness-low");
    reveal_strlit("brightness");
    assert("brightness"@.len() != "brightness-low"@.len());
}

proof fn lemma_sum_remove(s: Seq<MonitorStatusView>, i: int)
    requires
        0 <= i < s.len(),
    ensures
        brightness_sum(s) == brightness_sum(s.remove(i)) + s[i].brightness_percent,
    decreases s.len(),
{
    if i == s.len() - 1 {
        assert(s.remove(i) =~= s.drop_last());
    } else {
        lemma_sum_remove(s.drop_last(), i);
        assert(s.remove(i).drop_last() =~= s.drop_last().remove(i));
        assert(s.remove(i).last() == s.last());
    }
}

proof fn lemma_sum_permutation(s1: Seq<MonitorStatusView>, s2: Seq<MonitorStatusView>)
    requires
        s1.to_multiset() == s2.to_multiset(),
    ensures
        brightness_sum(s1) == brightness_sum(s2),
    decreases s1.len(),
{
    broadcast use vstd::seq_lib::group_to_multiset_ensures;

    if s1.len() == 0 {
        assert(s2.len() == s2.to_multiset().len());
        assert(s1.len() == s1.to_multiset().len());
    } else {
        let x = s1.last();
        assert(s1.contains(x)) by {
            assert(s1[s1.len() - 1] == x);
        }
        assert(s1.to_multiset().count(x) > 0);
        assert(s2.contains(x));
        let j = choose|j: int| 0 <= j < s2.len() && s2[j] == x;
        assert(s1.remove(s1.len() - 1) =~= s1.drop_last());
        assert(s1.remove(s1.len() - 1).to_multiset() == s1.to_multiset().remove(x));
        assert(s2.remove(j).to_multiset() == s2.to_multiset().remove(x));
        lemma_sum_permutation(s1.drop_last(), s2.remove(j));
        lemma_sum_remove(s2, j);
    }
}

/// Reordering the monitors changes neither the text, nor the class, nor the
/// percentage of the Waybar output: only the order of the tooltip lines.
pub proof fn lemma_waybar_reorder(s1: Seq<MonitorStatusView>, s2: Seq<MonitorStatusView>)
    requires
        s1.to_multiset() == s2.to_multiset(),
    ensures
        waybar_spec(s1).text == waybar_spec(s2).text,
        waybar_spec(s1).class == waybar_spec(s2).class,
        waybar_spec(s1).percentage == waybar_spec(s2).percentage,
{
    broadcast use vstd::seq_lib::group_to_multiset_ensures;

    assert(s1.len() == s1.to_multiset().len());
    assert(s2.len() == s2.to_multiset().len());
    lemma_sum_permutation(s1, s2);
}

} // verus!
