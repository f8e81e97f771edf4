//! The texts that the terminal shows, without the drawing.

use crate::app::App;
use vstd::prelude::*;
use vstd::string::{StrSliceExecFns, StringExecFns, StringSliceAdditionalSpecFns};
use vstd::utf8::{decode_utf8, encode_utf8_decode_utf8, is_char_boundary};

verus! {

/// A run of `count` spaces.
pub open spec fn spaces(count: nat) -> Seq<char> {
    Seq::new(count, |i: int| ' ')
}

/// A text with spaces behind it until it has `width` characters. A text
/// that has that many already stays as it is.
pub open spec fn padded(text: Seq<char>, width: nat) -> Seq<char> {
    if text.len() < width {
        text + spaces((width - text.len()) as nat)
    } else {
        text
    }
}

/// What `truncate` makes of a text for a column of `max_len` bytes.
///
/// A text of at most `max_len` bytes is padded to `max_len` characters. A
/// longer one is cut after its first `max_len - 3` bytes, and three dots
/// mark the cut.
pub open spec fn truncated(text: Seq<char>, bytes: Seq<u8>, max_len: nat) -> Seq<char> {
    if bytes.len() <= max_len {
        padded(text, max_len)
    } else {
        decode_utf8(bytes.subrange(0, max_len - 3)) + "..."@
    }
}

/// Fits a text into a column: pads a short text with spaces and cuts a long
/// one, marking the cut with three dots.
///
/// A text that is longer than the column can only be cut where the column
/// has room for the dots and the cut falls between two characters.
pub fn truncate(s: &str, max_len: usize) -> (fitted: String)
    requires
        s.spec_bytes().len() > max_len ==> max_len >= 3 && is_char_boundary(
            s.spec_bytes(),
            max_len - 3,
        ),
    ensures
        fitted@ == truncated(s@, s.spec_bytes(), max_len as nat),
{
    if s.as_bytes().len() <= max_len {
        let mut fitted = s.to_owned();
        let mut count = s.unicode_len();
        while count < max_len
            invariant
                s@.len() <= count,
                count > s@.len() ==> count <= max_len,
                fitted@ == s@ + spaces((count - s@.len()) as nat),
            decreases max_len - count,
        {
            proof {
                reveal_strlit(" ");
            }
            fitted.append(" ");
            count += 1;
            assert(fitted@ =~= s@ + spaces((count - s@.len()) as nat));
        }
        assert(fitted@ =~= padded(s@, max_len as nat));
        fitted
    } else {
        let (head, _) = s.split_at(max_len - 3);
        let mut fitted = head.to_owned();
        fitted.append("...");
        proof {
            encode_utf8_decode_utf8(head@);
            assert(head.spec_bytes() == s.spec_bytes().subrange(0, max_len - 3));
        }
        fitted
    }
}

/// The status line of a session: the selected entry and its author ahead
/// of the status message, or the message alone where nothing is selected.
pub open spec fn status_line_of(app: App) -> Seq<char> {
    if app.has_selection() {
        let selected = app.challenges[app.selected_index as int];
        "Selected: "@ + selected.name@ + " by "@ + selected.author@ + " | "@ + app.status_message@
    } else {
        app.status_message@
    }
}

/// Renders the status line of a session.
pub fn status_line(app: &App) -> (line: String)
    ensures
        line@ == status_line_of(*app),
{
    match app.get_selected_challenge() {
        Some(challenge) => {
            let mut line = "Selected: ".to_owned();
            line.append(challenge.name.as_str());
            line.append(" by ");
            line.append(challenge.author.as_str());
            line.append(" | ");
            line.append(app.status_message.as_str());
            line
        },
        None => app.status_message.clone(),
    }
}

} // verus!
