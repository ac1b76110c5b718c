//! Queued submissions: the bundles captured while a session is busy, and the
//! delivery policies that collapse them into the single next submission.

use vstd::prelude::*;
use vstd::seq_lib::*;
use crate::events::AgentMode;
use crate::text::{spec_join, spec_trim, str_trim, views_of, lemma_join_push};

verus! {

broadcast use vstd::seq_lib::group_seq_properties;

/// One image attached to a queued submission.
#[derive(Debug, Clone)]
pub struct QueuedImage {
    pub path: String,
    pub placeholder: String,
}

/// One prompt-plus-attachments bundle captured while a turn was running.
#[derive(Debug, Clone)]
pub struct QueuedMessage {
    pub text: String,
    pub mode: AgentMode,
    pub images: Vec<QueuedImage>,
}

/// How queued items are collapsed into the next submission.
#[derive(Clone, Copy, Debug, PartialEq, Eq, Structural)]
pub enum QueueDelivery {
    /// All queued texts joined with a blank-line separator.
    Concat,
    /// Each queued item prefixed with a `[Queued i of N]` marker.
    Sequenced,
}

/// The image paths of the queued messages, in queue order.
pub open spec fn spec_all_image_paths(msgs: Seq<QueuedMessage>) -> Seq<Seq<char>> {
    msgs.flat_map(|m: QueuedMessage| m.images@.map_values(|i: QueuedImage| i.path@))
}

/// The image placeholders of the queued messages, in queue order.
pub open spec fn spec_all_placeholders(msgs: Seq<QueuedMessage>) -> Seq<Seq<char>> {
    msgs.flat_map(|m: QueuedMessage| m.images@.map_values(|i: QueuedImage| i.placeholder@))
}

/// The marker line `[Queued i of n]`, with one-based `i`.
pub open spec fn spec_queue_marker(i: int, n: int) -> Seq<char> {
    "[Queued "@ + crate::numfmt::spec_u64_str(i as nat) + " of "@ + crate::numfmt::spec_u64_str(
        n as nat,
    ) + "]"@
}

/// The text parts of a collapsed submission: the trimmed texts in order, and
/// under the sequenced policy (with more than one item) a marker line before
/// each.
pub open spec fn spec_submission_parts(msgs: Seq<QueuedMessage>, delivery: QueueDelivery) -> Seq<
    Seq<char>,
> {
    if msgs.len() == 1 || delivery is Concat {
        msgs.map_values(|m: QueuedMessage| spec_trim(m.text@))
    } else {
        Seq::new(
            2 * msgs.len(),
            |k: int|
                if k % 2 == 0 {
                    spec_queue_marker(k / 2 + 1, msgs.len() as int)
                } else {
                    spec_trim(msgs[k / 2].text@)
                },
        )
    }
}

/// The text of the collapsed submission: its parts joined with blank lines.
pub open spec fn spec_submission_text(msgs: Seq<QueuedMessage>, delivery: QueueDelivery) -> Seq<
    char,
> {
    spec_join(spec_submission_parts(msgs, delivery), "\n\n"@)
}

/// Convert a single queued message into a submission: its text, image paths
/// and placeholders, in order.
pub fn queued_to_submission(message: &QueuedMessage) -> (r: (String, Vec<String>, Vec<String>))
    ensures
        r.0@ == message.text@,
        views_of(r.1@) == message.images@.map_values(|i: QueuedImage| i.path@),
        views_of(r.2@) == message.images@.map_values(|i: QueuedImage| i.placeholder@),
{
    let mut paths: Vec<String> = Vec::new();
    let mut placeholders: Vec<String> = Vec::new();
    let n = message.images.len();
    let mut i: usize = 0;
    while i < n
        invariant
            0 <= i <= n,
            n == message.images@.len(),
            views_of(paths@) =~= message.images@.take(i as int).map_values(
                |im: QueuedImage| im.path@,
            ),
            views_of(placeholders@) =~= message.images@.take(i as int).map_values(
                |im: QueuedImage| im.placeholder@,
            ),
        decreases n - i,
    {
        let img = &message.images[i];
        let ghost pv = paths@;
        let ghost hv = placeholders@;
        paths.push(crate::text::owned(img.path.as_str()));
        placeholders.push(crate::text::owned(img.placeholder.as_str()));
        proof {
            assert(message.images@.take(i + 1) =~= message.images@.take(i as int).push(
                message.images@[i as int],
            ));
            crate::text::lemma_views_push(pv, paths@.last());
            crate::text::lemma_views_push(hv, placeholders@.last());
            assert(views_of(paths@) =~= message.images@.take(i + 1).map_values(
                |im: QueuedImage| im.path@,
            ));
            assert(views_of(placeholders@) =~= message.images@.take(i + 1).map_values(
                |im: QueuedImage| im.placeholder@,
            ));
        }
        i = i + 1;
    }
    proof {
        assert(message.images@.take(n as int) =~= message.images@);
    }
    (crate::text::owned(message.text.as_str()), paths, placeholders)
}

/// Collapse the queued messages into one submission under the delivery
/// policy: texts joined with blank lines (a single item, or the concat
/// policy, joins the trimmed texts alone; the sequenced policy puts a
/// `[Queued i of N]` marker before each), and all images concatenated in
/// queue order — every queued item appears exactly once, in order.
pub fn build_queued_submission(messages: &Vec<QueuedMessage>, delivery: QueueDelivery) -> (r: (
    String,
    Vec<String>,
    Vec<String>,
))
    ensures
        r.0@ == spec_submission_text(messages@, delivery),
        views_of(r.1@) == spec_all_image_paths(messages@),
        views_of(r.2@) == spec_all_placeholders(messages@),
{
    let n = messages.len();
    let mut parts: Vec<String> = Vec::new();
    if n == 1 || matches!(delivery, QueueDelivery::Concat) {
        let mut i: usize = 0;
        while i < n
            invariant
                0 <= i <= n,
                n == messages@.len(),
                views_of(parts@) =~= messages@.take(i as int).map_values(
                    |m: QueuedMessage| spec_trim(m.text@),
                ),
            decreases n - i,
        {
            let ghost before = parts@;
            parts.push(crate::text::owned(str_trim(messages[i].text.as_str())));
            proof {
                assert(messages@.take(i + 1) =~= messages@.take(i as int).push(
                    messages@[i as int],
                ));
                crate::text::lemma_views_push(before, parts@.last());
                assert(views_of(parts@) =~= messages@.take(i + 1).map_values(
                    |m: QueuedMessage| spec_trim(m.text@),
                ));
            }
            i = i + 1;
        }
        proof {
            assert(messages@.take(n as int) =~= messages@);
            assert(views_of(parts@) =~= spec_submission_parts(messages@, delivery));
        }
    } else {
        let ghost target = spec_submission_parts(messages@, delivery);
        let mut i: usize = 0;
        while i < n
            invariant
                0 <= i <= n,
                n == messages@.len(),
                n != 1,
                !(delivery is Concat),
                target == spec_submission_parts(messages@, delivery),
                target.len() == 2 * n,
                views_of(parts@) =~= target.take(2 * i as int),
            decreases n - i,
        {
            let mut marker = String::from_str("[Queued ");
            marker.append(crate::numfmt::u64_to_string((i as u64) + 1).as_str());
            marker.append(" of ");
            marker.append(crate::numfmt::u64_to_string(n as u64).as_str());
            marker.append("]");
            proof {
                assert(marker@ =~= spec_queue_marker(i as int + 1, n as int));
            }
            let ghost before = parts@;
            parts.push(marker);
            let ghost mid = parts@;
            parts.push(crate::text::owned(str_trim(messages[i].text.as_str())));
            proof {
                crate::text::lemma_views_push(before, mid.last());
                crate::text::lemma_views_push(mid, parts@.last());
                assert(views_of(parts@) =~= target.take(2 * (i as int + 1)));
            }
            i = i + 1;
        }
        proof {
            assert(target.take(2 * n as int) =~= target);
            assert(views_of(parts@) =~= spec_submission_parts(messages@, delivery));
        }
    }
    let text = crate::text::join_strings(&parts, "\n\n");

    let ghost fpath = |m: QueuedMessage| m.images@.map_values(|im: QueuedImage| im.path@);
    let ghost fph = |m: QueuedMessage| m.images@.map_values(|im: QueuedImage| im.placeholder@);
    let mut paths: Vec<String> = Vec::new();
    let mut placeholders: Vec<String> = Vec::new();
    proof {
        assert(messages@.take(0).flat_map(fpath) =~= Seq::<Seq<char>>::empty());
        assert(messages@.take(0).flat_map(fph) =~= Seq::<Seq<char>>::empty());
        assert(views_of(paths@) =~= messages@.take(0).flat_map(fpath));
        assert(views_of(placeholders@) =~= messages@.take(0).flat_map(fph));
    }
    let mut i: usize = 0;
    while i < n
        invariant
            0 <= i <= n,
            n == messages@.len(),
            fpath == (|m: QueuedMessage| m.images@.map_values(|im: QueuedImage| im.path@)),
            fph == (|m: QueuedMessage| m.images@.map_values(|im: QueuedImage| im.placeholder@)),
            views_of(paths@) == messages@.take(i as int).flat_map(fpath),
            views_of(placeholders@) == messages@.take(i as int).flat_map(fph),
        decreases n - i,
    {
        let msg = &messages[i];
        let ghost paths_before = views_of(paths@);
        let ghost ph_before = views_of(placeholders@);
        let m = msg.images.len();
        let mut j: usize = 0;
        while j < m
            invariant
                0 <= j <= m,
                m == msg.images@.len(),
                msg == &messages@[i as int],
                views_of(paths@) =~= paths_before + msg.images@.take(j as int).map_values(
                    |im: QueuedImage| im.path@,
                ),
                views_of(placeholders@) =~= ph_before + msg.images@.take(j as int).map_values(
                    |im: QueuedImage| im.placeholder@,
                ),
            decreases m - j,
        {
            let img = &msg.images[j];
            let ghost pv = paths@;
            let ghost hv = placeholders@;
            paths.push(crate::text::owned(img.path.as_str()));
            placeholders.push(crate::text::owned(img.placeholder.as_str()));
            proof {
                assert(msg.images@.take(j + 1) =~= msg.images@.take(j as int).push(
                    msg.images@[j as int],
                ));
                crate::text::lemma_views_push(pv, paths@.last());
                crate::text::lemma_views_push(hv, placeholders@.last());
                assert(views_of(paths@) =~= paths_before + msg.images@.take(j + 1).map_values(
                    |im: QueuedImage| im.path@,
                ));
                assert(views_of(placeholders@) =~= ph_before + msg.images@.take(
                    j + 1,
                ).map_values(|im: QueuedImage| im.placeholder@));
            }
            j = j + 1;
        }
        proof {
            assert(msg.images@.take(m as int) =~= msg.images@);
            messages@.lemma_flat_map_take_append(fpath, i as int);
            messages@.lemma_flat_map_take_append(fph, i as int);
            assert(views_of(paths@) =~= messages@.take(i as int + 1).flat_map(fpath));
            assert(views_of(placeholders@) =~= messages@.take(i as int + 1).flat_map(fph));
        }
        i = i + 1;
    }
    proof {
        assert(messages@.take(n as int) =~= messages@);
    }
    (text, paths, placeholders)
}

/// The displayed column width of a string, as the unicode-width crate
/// computes it; a function of the characters alone.
pub uninterp spec fn display_width_of(s: Seq<char>) -> nat;

/// Relies on `unicode_width::UnicodeWidthStr::width`: the displayed column
/// width of a string.
#[verifier::external_body]
fn str_display_width(s: &str) -> (r: usize)
    ensures
        r == display_width_of(s@),
{
    unicode_width::UnicodeWidthStr::width(s)
}

/// The displayed column width of one character, as the unicode-width crate
/// computes it; `None` for control characters.
pub uninterp spec fn char_display_width_of(c: char) -> Option<usize>;

/// Relies on `unicode_width::UnicodeWidthChar::width`: the displayed column
/// width of one character.
#[verifier::external_body]
fn char_display_width(c: char) -> (r: Option<usize>)
    ensures
        r == char_display_width_of(c),
{
    unicode_width::UnicodeWidthChar::width(c)
}

/// The column width a character counts for when truncating: its displayed
/// width, defaulting to one.
pub open spec fn cell_width(c: char) -> int {
    match char_display_width_of(c) {
        Some(w) => w as int,
        None => 1,
    }
}

/// How many leading characters fit in a column budget, taken greedily.
pub open spec fn fit_chars(s: Seq<char>, budget: int) -> int
    decreases s.len(),
{
    if s.len() == 0 {
        0
    } else if cell_width(s[0]) > budget {
        0
    } else {
        1 + fit_chars(s.drop_first(), budget - cell_width(s[0]))
    }
}

/// The width-truncated form of a line: text that fits is unchanged; wider
/// text keeps the characters that fit beside a trailing `...`; a width of
/// at most the ellipsis keeps a clipped ellipsis alone; width zero keeps
/// nothing.
pub open spec fn spec_truncate_queue_line(text: Seq<char>, max_width: int) -> Seq<char> {
    if max_width == 0 {
        Seq::empty()
    } else if display_width_of(text) <= max_width {
        text
    } else if max_width <= display_width_of("..."@) {
        if max_width < 3 {
            "..."@.take(max_width)
        } else {
            "..."@
        }
    } else {
        text.take(fit_chars(text, max_width - display_width_of("..."@))) + "..."@
    }
}

/// Truncate a line to a display width; see `spec_truncate_queue_line`.
pub fn truncate_queue_line(text: &str, max_width: usize) -> (r: String)
    ensures
        r@ == spec_truncate_queue_line(text@, max_width as int),
{
    if max_width == 0 {
        return String::new();
    }
    let ellipsis = "...";
    let ellipsis_width = str_display_width(ellipsis);
    let current_width = str_display_width(text);
    if current_width <= max_width {
        return crate::text::owned(text);
    }
    proof {
        reveal_strlit("...");
    }
    if max_width <= ellipsis_width {
        let keep = if max_width < 3 {
            max_width
        } else {
            3
        };
        let clipped = ellipsis.substring_char(0, keep);
        proof {
            if max_width >= 3 {
                assert(ellipsis@.subrange(0, 3) =~= ellipsis@);
            }
            assert(ellipsis@.subrange(0, keep as int) =~= ellipsis@.take(keep as int));
        }
        return crate::text::owned(clipped);
    }
    let target = max_width - ellipsis_width;
    let n = text.unicode_len();
    let mut width: usize = 0;
    let mut i: usize = 0;
    let ghost all = text@;
    proof {
        assert(all.skip(0) =~= all);
    }
    loop
        invariant
            0 <= i <= n,
            n == all.len(),
            text@ == all,
            width <= target,
            fit_chars(all, target as int) == i + fit_chars(all.skip(i as int), target - width),
        ensures
            0 <= i <= n,
            text@ == all,
            fit_chars(all, target as int) == i,
        decreases n - i,
    {
        if i >= n {
            proof {
                assert(all.skip(n as int) =~= Seq::<char>::empty());
            }
            break ;
        }
        let c = text.get_char(i);
        let char_width: usize = match char_display_width(c) {
            Some(w) => w,
            None => 1,
        };
        proof {
            assert(all.skip(i as int)[0] == all[i as int]);
            assert(all.skip(i as int).drop_first() =~= all.skip(i as int + 1));
        }
        if char_width > target - width {
            proof {
                assert(fit_chars(all.skip(i as int), target - width) == 0);
            }
            break ;
        }
        width = width + char_width;
        i = i + 1;
    }
    proof {
        assert(all.take(fit_chars(all, target as int)) =~= all.take(i as int));
    }
    let kept = text.substring_char(0, i);
    let mut out = crate::text::owned(kept);
    out.append(ellipsis);
    proof {
        assert(out@ =~= all.take(fit_chars(all, target as int)) + "..."@);
    }
    out
}

/// The preview text of one queued message, before width truncation: the
/// mode's label, a colon, the trimmed first line of the trimmed text (or a
/// placeholder when blank), a marker when more lines follow, and an image
/// count when images are attached.
pub open spec fn spec_queue_preview(msg: QueuedMessage) -> Seq<char> {
    let raw = spec_trim(msg.text@);
    let first = spec_trim(crate::text::spec_first_line(raw));
    let preview = if first.len() == 0 {
        "<empty>"@
    } else {
        first
    };
    let with_more = if exists|i: int| 0 <= i < raw.len() && raw[i] == '\n' {
        preview + " ..."@
    } else {
        preview
    };
    let base = crate::events::spec_mode_label(msg.mode) + ": "@ + with_more;
    if msg.images@.len() > 0 {
        base + " ["@ + crate::numfmt::spec_u64_str(msg.images@.len() as nat) + (
        if msg.images@.len() == 1 {
            " image]"@
        } else {
            " images]"@
        })
    } else {
        base
    }
}

/// Build the preview line of one queued message, truncated to the given
/// display width when it is positive.
pub fn queue_line_text(msg: &QueuedMessage, max_width: usize) -> (r: String)
    ensures
        max_width == 0 ==> r@ == spec_queue_preview(*msg),
        max_width > 0 ==> r@ == spec_truncate_queue_line(
            spec_queue_preview(*msg),
            max_width as int,
        ),
{
    let raw = str_trim(msg.text.as_str());
    let first = str_trim(crate::text::str_first_line(raw));
    let mut line = crate::text::owned(msg.mode.as_str());
    line.append(": ");
    if first.unicode_len() == 0 {
        line.append("<empty>");
    } else {
        line.append(first);
    }
    if crate::text::str_contains_char(raw, '\n') {
        line.append(" ...");
    }
    let img_count = msg.images.len();
    if img_count > 0 {
        line.append(" [");
        line.append(crate::numfmt::u64_to_string(img_count as u64).as_str());
        if img_count == 1 {
            line.append(" image]");
        } else {
            line.append(" images]");
        }
    }
    proof {
        assert(line@ =~= spec_queue_preview(*msg));
    }
    if max_width > 0 {
        truncate_queue_line(line.as_str(), max_width)
    } else {
        line
    }
}

} // verus!
