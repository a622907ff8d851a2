//! Caption composition: the text the render transform overlays on a cover is
//! a pure function of the track reference, recomputed fresh for every
//! preparation and never cached.

use vstd::prelude::*;
use vstd::string::StringExecFns;
use crate::repo::TrackRef;

verus! {

/// The decimal digit character for `d`.
pub open spec fn digit_char(d: int) -> char {
    if d == 0 {
        '0'
    } else if d == 1 {
        '1'
    } else if d == 2 {
        '2'
    } else if d == 3 {
        '3'
    } else if d == 4 {
        '4'
    } else if d == 5 {
        '5'
    } else if d == 6 {
        '6'
    } else if d == 7 {
        '7'
    } else if d == 8 {
        '8'
    } else {
        '9'
    }
}

/// The decimal notation of `n`, most significant digit first, no sign and no
/// leading zero (a single `'0'` for zero).
pub open spec fn dec_digits(n: nat) -> Seq<char>
    decreases n,
{
    if n < 10 {
        seq![digit_char(n as int)]
    } else {
        dec_digits(n / 10) + seq![digit_char((n % 10) as int)]
    }
}

fn digit_str(d: usize) -> (r: &'static str)
    requires
        d < 10,
    ensures
        r@ == seq![digit_char(d as int)],
{
    proof {
        reveal_strlit("0");
        reveal_strlit("1");
        reveal_strlit("2");
        reveal_strlit("3");
        reveal_strlit("4");
        reveal_strlit("5");
        reveal_strlit("6");
        reveal_strlit("7");
        reveal_strlit("8");
        reveal_strlit("9");
    }
    if d == 0 {
        proof {
            assert("0"@ =~= seq![digit_char(0)]);
        }
        "0"
    } else if d == 1 {
        proof {
            assert("1"@ =~= seq![digit_char(1)]);
        }
        "1"
    } else if d == 2 {
        proof {
            assert("2"@ =~= seq![digit_char(2)]);
        }
        "2"
    } else if d == 3 {
        proof {
            assert("3"@ =~= seq![digit_char(3)]);
        }
        "3"
    } else if d == 4 {
        proof {
            assert("4"@ =~= seq![digit_char(4)]);
        }
        "4"
    } else if d == 5 {
        proof {
            assert("5"@ =~= seq![digit_char(5)]);
        }
        "5"
    } else if d == 6 {
        proof {
            assert("6"@ =~= seq![digit_char(6)]);
        }
        "6"
    } else if d == 7 {
        proof {
            assert("7"@ =~= seq![digit_char(7)]);
        }
        "7"
    } else if d == 8 {
        proof {
            assert("8"@ =~= seq![digit_char(8)]);
        }
        "8"
    } else {
        proof {
            assert("9"@ =~= seq![digit_char(9)]);
        }
        "9"
    }
}

/// Renders `n` in decimal.
pub fn usize_to_string(n: usize) -> (r: String)
    ensures
        r@ == dec_digits(n as nat),
    decreases n,
{
    if n < 10 {
        let s = String::from_str(digit_str(n));
        proof {
            assert(s@ =~= dec_digits(n as nat));
        }
        s
    } else {
        let mut s = usize_to_string(n / 10);
        s.append(digit_str(n % 10));
        proof {
            assert(s@ =~= dec_digits(n as nat));
        }
        s
    }
}

/// The caption for `t`: its position on the disc as index/total, then title,
/// artist, album title and catalog id, one line each.
pub open spec fn spec_caption(t: TrackRef) -> Seq<char> {
    "Track "@ + dec_digits(t.track_id as nat) + "/"@ + dec_digits(t.disc_total as nat) + "\n"@
        + "Title: "@ + t.title@ + "\n"@ + "Artist: "@ + t.artist@ + "\n"@ + "Album: "@
        + t.album_title@ + "\n"@ + "Catalog: "@ + t.album_id@ + "\n"@
}

/// Composes the caption text for `track`.
pub fn caption_text(track: &TrackRef) -> (r: String)
    ensures
        r@ == spec_caption(*track),
{
    let mut s = String::from_str("Track ");
    let index = usize_to_string(track.track_id);
    s.append(index.as_str());
    s.append("/");
    let total = usize_to_string(track.disc_total);
    s.append(total.as_str());
    s.append("\n");
    s.append("Title: ");
    s.append(track.title.as_str());
    s.append("\n");
    s.append("Artist: ");
    s.append(track.artist.as_str());
    s.append("\n");
    s.append("Album: ");
    s.append(track.album_title.as_str());
    s.append("\n");
    s.append("Catalog: ");
    s.append(track.album_id.as_str());
    s.append("\n");
    proof {
        assert(s@ =~= spec_caption(*track));
    }
    s
}

} // verus!
