//! Reconciles a user's requested output resolution with the ceiling an
//! administrator configured. A resolution is written either `WxH` or as a
//! tier label (`4k`/`2160p`, `1080p`, `720p`, `480p`).
use vstd::prelude::*;
use crate::text::{ascii_text, ascii_lower, trimmed, lowercase_of, first_index, i32_value, trim_text, to_lowercase, find_char, parse_i32};

verus! {

/// The rank of a tier label that has already been trimmed and lowercased;
/// -1 for anything else.
pub open spec fn rank_of_label_text(v: Seq<char>) -> i32 {
    if v == seq!['4', 'k'] || v == seq!['2', '1', '6', '0', 'p'] {
        3
    } else if v == seq!['1', '0', '8', '0', 'p'] {
        2
    } else if v == seq!['7', '2', '0', 'p'] {
        1
    } else if v == seq!['4', '8', '0', 'p'] {
        0
    } else {
        -1i32
    }
}

/// The rank of `value` read as a tier label, case and surrounding white
/// space aside; -1 when it is no label.
pub open spec fn label_rank(value: Seq<char>) -> i32 {
    rank_of_label_text(lowercase_of(trimmed(value)))
}

/// The rank of explicit dimensions, by their longest side.
pub open spec fn dims_rank(w: i32, h: i32) -> i32 {
    let longest = if w >= h {
        w
    } else {
        h
    };
    if longest >= 3000 {
        3
    } else if longest >= 1900 {
        2
    } else if longest >= 1200 {
        1
    } else {
        0
    }
}

/// The canonical dimensions of a rank, swapped when portrait. Ranks other
/// than 1 to 3 get the smallest tier.
pub open spec fn rank_dims(rank: i32, portrait: bool) -> (i32, i32) {
    let (w, h) = if rank == 3 {
        (3840i32, 2160i32)
    } else if rank == 2 {
        (1920i32, 1080i32)
    } else if rank == 1 {
        (1280i32, 720i32)
    } else {
        (854i32, 480i32)
    };
    if portrait {
        (h, w)
    } else {
        (w, h)
    }
}

/// The dimensions written by `value`: `WxH` with two positive integers, or
/// the landscape dimensions of a tier label. A text with an `x` whose two
/// sides do not both parse as integers writes none.
pub open spec fn written_dims(value: Seq<char>) -> Option<(i32, i32)> {
    let v = trimmed(value);
    let from_label = if label_rank(v) >= 0 {
        Some(rank_dims(label_rank(v), false))
    } else {
        None
    };
    match first_index(v, 'x') {
        Some(i) => match (i32_value(v.subrange(0, i)), i32_value(v.subrange(i + 1, v.len() as int))) {
            (Some(w), Some(h)) => if w > 0 && h > 0 {
                Some((w, h))
            } else {
                from_label
            },
            _ => None,
        },
        None => from_label,
    }
}

/// The rank of the configured ceiling: its label's rank, else the rank of
/// its dimensions, else 2.
pub open spec fn ceiling_rank(max_value: Seq<char>) -> i32 {
    if label_rank(max_value) >= 0 {
        label_rank(max_value)
    } else {
        match written_dims(max_value) {
            Some((w, h)) => dims_rank(w, h),
            None => 2,
        }
    }
}

/// The effective output dimensions for `requested` under `max_value`.
pub open spec fn clamped_dims(requested: Seq<char>, max_value: Seq<char>) -> (i32, i32) {
    let max_rank = ceiling_rank(max_value);
    match written_dims(requested) {
        Some((w, h)) => if dims_rank(w, h) > max_rank {
            rank_dims(max_rank, h > w)
        } else {
            (w, h)
        },
        None => rank_dims(max_rank, false),
    }
}

fn is_label(v: &str, label: &str) -> (r: bool)
    ensures
        r == (v@ == label@),
{
    crate::text::same_text(v, label)
}

/// The rank of a tier label already trimmed and lowercased: 3 for `4k` or
/// `2160p`, 2 for `1080p`, 1 for `720p`, 0 for `480p`, -1 otherwise.
pub fn rank_of_lowered_label(v: &str) -> (r: i32)
    ensures
        r == rank_of_label_text(v@),
{
    proof {
        reveal_strlit("4k");
        reveal_strlit("2160p");
        reveal_strlit("1080p");
        reveal_strlit("720p");
        reveal_strlit("480p");
        assert("4k"@ =~= seq!['4', 'k']);
        assert("2160p"@ =~= seq!['2', '1', '6', '0', 'p']);
        assert("1080p"@ =~= seq!['1', '0', '8', '0', 'p']);
        assert("720p"@ =~= seq!['7', '2', '0', 'p']);
        assert("480p"@ =~= seq!['4', '8', '0', 'p']);
    }
    if is_label(v, "4k") || is_label(v, "2160p") {
        3
    } else if is_label(v, "1080p") {
        2
    } else if is_label(v, "720p") {
        1
    } else if is_label(v, "480p") {
        0
    } else {
        -1
    }
}

/// The rank of `value` as a tier label, case and surrounding white space
/// aside: 3 for `4k` or `2160p`, 2 for `1080p`, 1 for `720p`, 0 for `480p`,
/// -1 otherwise.
pub fn resolution_rank_from_label(value: &str) -> (r: i32)
    ensures
        r == label_rank(value@),
        ascii_text(trimmed(value@)) ==> r == rank_of_label_text(
            trimmed(value@).map_values(|c: char| ascii_lower(c)),
        ),
        -1 <= r <= 3,
{
    let lowered = to_lowercase(trim_text(value));
    rank_of_lowered_label(lowered.as_str())
}

/// The rank of explicit dimensions by their longest side: 3 from 3000, 2
/// from 1900, 1 from 1200, else 0.
pub fn resolution_rank_from_dims(w: i32, h: i32) -> (r: i32)
    ensures
        r == dims_rank(w, h),
{
    let longest = if w >= h {
        w
    } else {
        h
    };
    if longest >= 3000 {
        3
    } else if longest >= 1900 {
        2
    } else if longest >= 1200 {
        1
    } else {
        0
    }
}

/// The canonical dimensions of a rank (3840x2160, 1920x1080, 1280x720,
/// 854x480), swapped when `portrait`.
pub fn dims_for_rank(rank: i32, portrait: bool) -> (r: (i32, i32))
    ensures
        r == rank_dims(rank, portrait),
{
    let (w, h) = if rank == 3 {
        (3840i32, 2160i32)
    } else if rank == 2 {
        (1920i32, 1080i32)
    } else if rank == 1 {
        (1280i32, 720i32)
    } else {
        (854i32, 480i32)
    };
    if portrait {
        (h, w)
    } else {
        (w, h)
    }
}

/// The dimensions that `value` writes, as `WxH` or as a tier label.
pub fn parse_resolution_dims(value: &str) -> (r: Option<(i32, i32)>)
    ensures
        r == written_dims(value@),
        r matches Some((w, h)) ==> w > 0 && h > 0,
{
    let v = trim_text(value);
    if let Some(i) = find_char(v, 'x') {
        let n = v.unicode_len();
        let w = parse_i32(v.substring_char(0, i));
        let h = parse_i32(v.substring_char(i + 1, n));
        match (w, h) {
            (Some(wv), Some(hv)) => {
                if wv > 0 && hv > 0 {
                    return Some((wv, hv));
                }
            },
            _ => {
                return None;
            },
        }
    }
    let rank = resolution_rank_from_label(v);
    if rank >= 0 {
        Some(dims_for_rank(rank, false))
    } else {
        None
    }
}

/// The effective output width and height for a requested resolution under
/// the configured ceiling `max_value`. Requests above the ceiling's rank
/// get the ceiling's canonical dimensions in the request's orientation
/// (portrait when taller than wide); other explicit requests pass through;
/// an unreadable request gets the ceiling's landscape dimensions.
pub fn clamp_resolution(requested: &str, max_value: &str) -> (r: (i32, i32))
    ensures
        r == clamped_dims(requested@, max_value@),
        r.0 > 0 && r.1 > 0,
{
    let max_rank = {
        let from_label = resolution_rank_from_label(max_value);
        if from_label >= 0 {
            from_label
        } else if let Some((w, h)) = parse_resolution_dims(max_value) {
            resolution_rank_from_dims(w, h)
        } else {
            2
        }
    };
    let (req_w, req_h, portrait, req_rank) = if let Some((w, h)) = parse_resolution_dims(requested) {
        (w, h, h > w, resolution_rank_from_dims(w, h))
    } else {
        (0, 0, false, max_rank)
    };
    if req_rank > max_rank {
        return dims_for_rank(max_rank, portrait);
    }
    if req_w > 0 && req_h > 0 {
        return (req_w, req_h);
    }
    dims_for_rank(max_rank, false)
}

} // verus!
