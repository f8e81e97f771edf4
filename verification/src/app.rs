//! The browsing session: the entries on show, the selection and the two
//! requests that the operator can make.

use crate::challenge::Challenge;
use crate::text::{decimal_of_nat, push_decimal};
use vstd::prelude::*;
use vstd::string::StringExecFns;

verus! {

/// The state of a browsing session: the entries on show, the one that is
/// selected, the status line, and the two requests that the operator can
/// make of the session.
#[derive(Debug, Clone, PartialEq, Eq)]
pub struct App {
    pub challenges: Vec<Challenge>,
    pub selected_index: usize,
    pub status_message: String,
    pub should_quit: bool,
    pub scroll_offset: usize,
    pub should_download: bool,
}

/// The position after `index` in a list of `len` entries, going back to the
/// first after the last.
pub open spec fn next_index(index: int, len: int) -> int {
    if len > 0 {
        (index + 1) % len
    } else {
        index
    }
}

/// The position before `index` in a list of `len` entries, going on to the
/// last before the first.
pub open spec fn previous_index(index: int, len: int) -> int {
    if len <= 0 {
        index
    } else if index == 0 {
        len - 1
    } else {
        index - 1
    }
}

/// Moving the selection stays within the list, and a move one way undoes a
/// move the other way, also across the ends of the list.
pub proof fn lemma_moves_wrap_around(index: int, len: int)
    requires
        0 <= index < len,
    ensures
        0 <= next_index(index, len) < len,
        0 <= previous_index(index, len) < len,
        previous_index(next_index(index, len), len) == index,
        next_index(previous_index(index, len), len) == index,
{
    if index + 1 < len {
        vstd::arithmetic::div_mod::lemma_small_mod((index + 1) as nat, len as nat);
    } else {
        vstd::arithmetic::div_mod::lemma_mod_self_0(len);
    }
    if index == 0 {
        vstd::arithmetic::div_mod::lemma_mod_self_0(len);
    } else {
        vstd::arithmetic::div_mod::lemma_small_mod(index as nat, len as nat);
    }
}

/// The status line that announces a list of `count` entries.
pub open spec fn found_message(count: nat) -> Seq<char> {
    if count == 0 {
        "No challenges found"@
    } else {
        decimal_of_nat(count) + " challenges found"@
    }
}

/// The status line that reports how the download of `name` ended.
pub open spec fn download_message(name: Seq<char>, succeeded: bool) -> Seq<char> {
    if succeeded {
        "Successfully downloaded "@ + name + ".zip"@
    } else {
        "Failed to download "@ + name
    }
}

impl App {
    /// The selection points into the list, or at its start where the list
    /// is empty.
    pub open spec fn wf(&self) -> bool {
        if self.challenges.len() == 0 {
            self.selected_index == 0
        } else {
            self.selected_index < self.challenges.len()
        }
    }

    /// Whether the selection points at an entry.
    pub open spec fn has_selection(&self) -> bool {
        self.selected_index < self.challenges.len()
    }

    /// A session that has not been given its entries yet.
    pub fn new() -> (app: App)
        ensures
            app.challenges@ == Seq::<Challenge>::empty(),
            app.selected_index == 0,
            app.status_message@ == "Loading challenges..."@,
            !app.should_quit,
            app.scroll_offset == 0,
            !app.should_download,
            app.wf(),
    {
        App {
            challenges: Vec::new(),
            selected_index: 0,
            status_message: "Loading challenges...".to_owned(),
            should_quit: false,
            scroll_offset: 0,
            should_download: false,
        }
    }

    /// Moves the selection to the next entry, and from the last entry to
    /// the first. An empty list leaves the selection where it is.
    pub fn next_challenge(&mut self)
        ensures
            final(self).selected_index == next_index(
                old(self).selected_index as int,
                old(self).challenges.len() as int,
            ),
            final(self).challenges == old(self).challenges,
            final(self).status_message == old(self).status_message,
            final(self).should_quit == old(self).should_quit,
            final(self).scroll_offset == old(self).scroll_offset,
            final(self).should_download == old(self).should_download,
            old(self).wf() ==> final(self).wf(),
    {
        let len = self.challenges.len();
        if len > 0 {
            let here = self.selected_index % len;
            assert((self.selected_index + 1) % (len as int) == (here + 1) % (len as int)) by {
                vstd::arithmetic::div_mod::lemma_add_mod_noop(
                    self.selected_index as int,
                    1,
                    len as int,
                );
                vstd::arithmetic::div_mod::lemma_add_mod_noop(here as int, 1, len as int);
                vstd::arithmetic::div_mod::lemma_mod_twice(self.selected_index as int, len as int);
            }
            self.selected_index = (here + 1) % len;
        }
    }

    /// Moves the selection to the entry before, and from the first entry
    /// to the last. An empty list leaves the selection where it is.
    pub fn previous_challenge(&mut self)
        ensures
            final(self).selected_index == previous_index(
                old(self).selected_index as int,
                old(self).challenges.len() as int,
            ),
            final(self).challenges == old(self).challenges,
            final(self).status_message == old(self).status_message,
            final(self).should_quit == old(self).should_quit,
            final(self).scroll_offset == old(self).scroll_offset,
            final(self).should_download == old(self).should_download,
            old(self).wf() ==> final(self).wf(),
    {
        if self.challenges.len() > 0 {
            if self.selected_index == 0 {
                self.selected_index = self.challenges.len() - 1;
            } else {
                self.selected_index -= 1;
            }
        }
    }

    /// The entry that is selected, where the selection points at one.
    pub fn get_selected_challenge(&self) -> (entry: Option<&Challenge>)
        ensures
            entry is Some == self.has_selection(),
            entry matches Some(challenge) ==> *challenge == self.challenges[self.selected_index as
                int],
    {
        if self.selected_index < self.challenges.len() {
            Some(&self.challenges[self.selected_index])
        } else {
            None
        }
    }

    /// Asks for the session to end.
    pub fn quit(&mut self)
        ensures
            final(self).should_quit,
            final(self).challenges == old(self).challenges,
            final(self).selected_index == old(self).selected_index,
            final(self).status_message == old(self).status_message,
            final(self).scroll_offset == old(self).scroll_offset,
            final(self).should_download == old(self).should_download,
    {
        self.should_quit = true;
    }

    /// Puts a new list on show, with its first entry selected, and
    /// announces its length in the status line.
    pub fn set_challenges(&mut self, challenges: Vec<Challenge>)
        ensures
            final(self).challenges == challenges,
            final(self).selected_index == 0,
            final(self).scroll_offset == 0,
            final(self).status_message@ == found_message(challenges.len() as nat),
            final(self).should_quit == old(self).should_quit,
            final(self).should_download == old(self).should_download,
            final(self).wf(),
    {
        let count = challenges.len();
        self.challenges = challenges;
        self.selected_index = 0;
        self.scroll_offset = 0;
        if count == 0 {
            self.status_message = "No challenges found".to_owned();
        } else {
            let mut message = String::new();
            push_decimal(&mut message, count as u64);
            message.append(" challenges found");
            assert(message@ =~= found_message(count as nat));
            self.status_message = message;
        }
    }

    /// Takes in the answer to a search. A list with entries is put on show.
    /// An empty one leaves the session as it is and says so in the status
    /// line.
    pub fn show_results(&mut self, challenges: Vec<Challenge>)
        ensures
            final(self).should_quit == old(self).should_quit,
            final(self).should_download == old(self).should_download,
            challenges.len() > 0 ==> {
                &&& final(self).challenges == challenges
                &&& final(self).selected_index == 0
                &&& final(self).scroll_offset == 0
                &&& final(self).status_message@ == found_message(challenges.len() as nat)
                &&& final(self).wf()
            },
            challenges.len() == 0 ==> {
                &&& final(self).challenges == old(self).challenges
                &&& final(self).selected_index == old(self).selected_index
                &&& final(self).scroll_offset == old(self).scroll_offset
                &&& final(self).status_message@ == "No challenges found matching criteria"@
            },
    {
        if challenges.len() == 0 {
            self.set_status("No challenges found matching criteria".to_owned());
        } else {
            self.set_challenges(challenges);
        }
    }

    /// Takes in the end of a download: reports it in the status line, where
    /// an entry is selected, and marks the request as handled.
    pub fn download_finished(&mut self, succeeded: bool)
        ensures
            !final(self).should_download,
            final(self).challenges == old(self).challenges,
            final(self).selected_index == old(self).selected_index,
            final(self).should_quit == old(self).should_quit,
            final(self).scroll_offset == old(self).scroll_offset,
            old(self).has_selection() ==> final(self).status_message@ == download_message(
                old(self).challenges[old(self).selected_index as int].name@,
                succeeded,
            ),
            !old(self).has_selection() ==> final(self).status_message == old(self).status_message,
    {
        let message = match self.get_selected_challenge() {
            Some(challenge) => {
                if succeeded {
                    let mut message = "Successfully downloaded ".to_owned();
                    message.append(challenge.name.as_str());
                    message.append(".zip");
                    Some(message)
                } else {
                    let mut message = "Failed to download ".to_owned();
                    message.append(challenge.name.as_str());
                    Some(message)
                }
            },
            None => None,
        };
        if let Some(message) = message {
            self.set_status(message);
        }
        self.reset_download_flag();
    }

    /// Replaces the status line.
    pub fn set_status(&mut self, message: String)
        ensures
            final(self).status_message == message,
            final(self).challenges == old(self).challenges,
            final(self).selected_index == old(self).selected_index,
            final(self).should_quit == old(self).should_quit,
            final(self).scroll_offset == old(self).scroll_offset,
            final(self).should_download == old(self).should_download,
    {
        self.status_message = message;
    }

    /// Asks for the selected entry to be downloaded.
    pub fn trigger_download(&mut self)
        ensures
            final(self).should_download,
            final(self).challenges == old(self).challenges,
            final(self).selected_index == old(self).selected_index,
            final(self).status_message == old(self).status_message,
            final(self).should_quit == old(self).should_quit,
            final(self).scroll_offset == old(self).scroll_offset,
    {
        self.should_download = true;
    }

    /// Marks the request for a download as handled.
    pub fn reset_download_flag(&mut self)
        ensures
            !final(self).should_download,
            final(self).challenges == old(self).challenges,
            final(self).selected_index == old(self).selected_index,
            final(self).status_message == old(self).status_message,
            final(self).should_quit == old(self).should_quit,
            final(self).scroll_offset == old(self).scroll_offset,
    {
        self.should_download = false;
    }
}

} // verus!
