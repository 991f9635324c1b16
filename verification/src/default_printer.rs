//! Which printer is the default, and remembering it.

use vstd::prelude::*;
use crate::error::Error;
use crate::text::view_of;

verus! {

/// What is remembered of the default printer: nothing, or what it resolved
/// to, which may be that there is none.
pub type Remembered = Option<Option<Seq<char>>>;

/// What to do next to find the default printer.
pub enum Resolution {
    /// Nothing: it is this, or there is none.
    Settled(Option<String>),
    /// Look at what the user chose in `lpoptions`.
    ReadOptions,
    /// Ask the server for its own.
    AskServer,
}

/// A [`Resolution`], as it is viewed.
pub enum ResolutionView {
    Settled(Option<Seq<char>>),
    ReadOptions,
    AskServer,
}

impl View for Resolution {
    type V = ResolutionView;

    open spec fn view(&self) -> ResolutionView {
        match self {
            Resolution::Settled(name) => ResolutionView::Settled(view_of(*name)),
            Resolution::ReadOptions => ResolutionView::ReadOptions,
            Resolution::AskServer => ResolutionView::AskServer,
        }
    }
}

/// The first step: what is remembered settles it.
pub open spec fn begun(memory: Remembered) -> ResolutionView {
    match memory {
        Some(name) => ResolutionView::Settled(name),
        None => ResolutionView::ReadOptions,
    }
}

/// The second step: the user's choice settles it and is remembered, where one
/// was made.
pub open spec fn chosen(memory: Remembered, choice: Option<Seq<char>>) -> (
    Remembered,
    ResolutionView,
) {
    match choice {
        Some(name) => (Some(Some(name)), ResolutionView::Settled(Some(name))),
        None => (memory, ResolutionView::AskServer),
    }
}

/// What a server's answer settles: its default, and none where it has none or
/// could not say.
pub open spec fn answer_of(answer: Result<Option<String>, Error>) -> Option<Seq<char>> {
    match answer {
        Ok(name) => view_of(name),
        Err(_) => None,
    }
}

/// What finding the default printer comes to, where nothing is remembered, the
/// user chose `choice` and the server would answer `answer`.
pub open spec fn resolved(
    choice: Option<Seq<char>>,
    answer: Result<Option<String>, Error>,
) -> Option<Seq<char>> {
    match chosen(None, choice).1 {
        ResolutionView::Settled(name) => name,
        _ => answer_of(answer),
    }
}

/// The user's choice comes before the server's default.
pub proof fn the_users_choice_comes_first(
    choice: Option<Seq<char>>,
    answer: Result<Option<String>, Error>,
)
    ensures
        resolved(choice, answer) == (match choice {
            Some(name) => Some(name),
            None => answer_of(answer),
        }),
{
}

/// What has been settled is not looked up again, however it was settled: the
/// next search ends at once, and with the same answer.
pub proof fn what_is_settled_is_remembered(
    memory: Remembered,
    choice: Option<Seq<char>>,
    answer: Result<Option<String>, Error>,
)
    ensures
        chosen(memory, choice).1 is Settled ==> begun(chosen(memory, choice).0) == chosen(
            memory,
            choice,
        ).1,
        begun(Some(answer_of(answer))) == ResolutionView::Settled(answer_of(answer)),
{
}

/// What has been found out about the default printer.
///
/// A fresh reading of the queues every few seconds must not cost a
/// `CUPS-Get-Default` round trip each time, so what it resolved to is kept
/// until it is invalidated.
pub struct DefaultCache {
    resolved: Option<Option<String>>,
}

impl View for DefaultCache {
    type V = Remembered;

    closed spec fn view(&self) -> Remembered {
        match self.resolved {
            Some(name) => Some(view_of(name)),
            None => None,
        }
    }
}

impl DefaultCache {
    /// Nothing is remembered yet.
    pub fn new() -> (r: DefaultCache)
        ensures
            r@ == None::<Option<Seq<char>>>,
    {
        DefaultCache { resolved: None }
    }

    /// Begins to find the default printer.
    pub fn begin(&self) -> (r: Resolution)
        ensures
            r@ == begun(self@),
    {
        match &self.resolved {
            Some(name) => Resolution::Settled(name.clone()),
            None => Resolution::ReadOptions,
        }
    }

    /// Takes in the choice that `lpoptions` holds, if it holds one.
    pub fn options_read(&mut self, choice: Option<String>) -> (r: Resolution)
        ensures
            (final(self)@, r@) == chosen(old(self)@, view_of(choice)),
    {
        match choice {
            Some(name) => {
                self.resolved = Some(Some(name.clone()));
                Resolution::Settled(Some(name))
            },
            None => Resolution::AskServer,
        }
    }

    /// Takes in the server's answer. A server that could not be asked has no
    /// default to offer.
    pub fn server_answered(&mut self, answer: Result<Option<String>, Error>) -> (r: Option<String>)
        ensures
            view_of(r) == answer_of(answer),
            final(self)@ == Some(answer_of(answer)),
    {
        let name = match answer {
            Ok(name) => name,
            Err(_) => None,
        };
        self.resolved = Some(name.clone());
        name
    }

    /// Forces the next search to resolve again instead of reusing what is
    /// remembered.
    pub fn invalidate(&mut self)
        ensures
            final(self)@ == None::<Option<Seq<char>>>,
    {
        self.resolved = None;
    }
}

} // verus!
