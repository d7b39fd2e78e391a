//! The error type of this crate.
use vstd::prelude::*;

verus! {

/// `Result` with [`Error`] as its default error type.
pub type Result<T, E = Error> = core::result::Result<T, E>;

/// A dynamic error: a root message together with the context that was added to it on its way
/// up.
///
/// This error is used as the default error type throughout this crate.
pub struct Error {
    message: String,
    context: Vec<String>,
}

impl Error {
    /// The root message of the error.
    pub closed spec fn message(&self) -> Seq<char> {
        self.message@
    }

    /// The root message of the error as a `String`.
    pub closed spec fn message_text(&self) -> String {
        self.message
    }

    /// The context added to the error, in the order in which it was added (innermost first).
    pub closed spec fn context(&self) -> Seq<Seq<char>> {
        self.context@.map_values(|c: String| c@)
    }

    /// What the error displays: the context added last, or the root message if there is none.
    pub open spec fn display(&self) -> Seq<char> {
        if self.context().len() == 0 {
            self.message()
        } else {
            self.context().last()
        }
    }

    /// The messages of the error from the outermost context down to the root message.
    pub open spec fn messages(&self) -> Seq<Seq<char>> {
        self.context().reverse().push(self.message())
    }

    /// Creates a new erased error from any error type; its message is what `error` displays.
    /// The error's sources are not kept.
    pub fn new<E>(error: E) -> (r: Self) where E: std::error::Error + Send + Sync + 'static
        ensures
            vstd::string::to_string_from_display_ensures::<E>(&error, r.message_text()),
            r.context() == Seq::<Seq<char>>::empty(),
    {
        let r = Error { message: error.to_string(), context: Vec::new() };
        assert(r.context() =~= Seq::<Seq<char>>::empty());
        r
    }

    /// Creates an error from a message.
    ///
    /// Useful for quick error construction without defining a type.
    pub fn msg(msg: &str) -> (r: Self)
        ensures
            r.message() == msg@,
            r.context() == Seq::<Seq<char>>::empty(),
    {
        let r = Error { message: msg.to_owned(), context: Vec::new() };
        assert(r.context() =~= Seq::<Seq<char>>::empty());
        r
    }

    /// Adds context to an error, improving diagnostics.
    pub fn with_context(self, context: &str) -> (r: Self)
        ensures
            r.message() == self.message(),
            r.context() == self.context().push(context@),
    {
        let mut contexts = self.context;
        contexts.push(context.to_owned());
        let r = Error { message: self.message, context: contexts };
        assert(r.context() =~= self.context().push(context@));
        r
    }

    /// Returns what the error displays: the context added last, or the root message if no
    /// context was added.
    pub fn to_string(&self) -> (r: String)
        ensures
            r@ == self.display(),
    {
        let n = self.context.len();
        if n == 0 {
            self.message.clone()
        } else {
            self.context[n - 1].clone()
        }
    }

    /// Returns the messages of the error, from the outermost context down to the root message.
    pub fn chain(&self) -> (r: Vec<String>)
        ensures
            r@.map_values(|s: String| s@) == self.messages(),
    {
        let n = self.context.len();
        let mut r: Vec<String> = Vec::new();
        let mut i: usize = n;
        while i > 0
            invariant
                i <= n,
                n == self.context@.len(),
                r@.map_values(|s: String| s@) =~= self.context().subrange(i as int, n as int).reverse(),
            decreases i,
        {
            i = i - 1;
            r.push(self.context[i].clone());
            assert(self.context().subrange(i as int, n as int).reverse() =~= self.context().subrange(
                i + 1,
                n as int,
            ).reverse().push(self.context()[i as int]));
        }
        r.push(self.message.clone());
        assert(self.context().subrange(0, n as int) =~= self.context());
        r
    }
}

/// Adding context puts it on top: the error then displays the new context, and its chain of
/// messages is the new context followed by the chain it had before.
pub proof fn law_context_on_top(before: Error, after: Error, context: Seq<char>)
    requires
        after.message() == before.message(),
        after.context() == before.context().push(context),
    ensures
        after.display() == context,
        after.messages() == seq![context] + before.messages(),
{
    let c = before.context();
    assert(c.push(context).reverse() =~= seq![context] + c.reverse());
    assert(after.messages() =~= seq![context] + before.messages());
}

} // verus!
