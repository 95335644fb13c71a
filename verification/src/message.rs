//! Catalog messages: what presentation shows, as a catalog entry with named
//! arguments (or a text shown as recorded). Looking the entries up in a
//! locale and interpolating happens at the edge.

use vstd::prelude::*;

verus! {

/// A presentation argument of a localized message.
pub enum MessageArg {
    /// Interpolated as is.
    Text(String),
    /// Another message, itself localized before interpolation.
    Nested(Box<CatalogMessage>),
    /// A catalog entry, localized before interpolation.
    Key(&'static str),
}

/// What presentation shows: a text as recorded, or a catalog entry with
/// named arguments.
pub enum CatalogMessage {
    Verbatim(String),
    Localized { key: &'static str, args: Vec<(&'static str, MessageArg)> },
}

/// The abstract form of `MessageArg`.
pub enum ArgView {
    Text(Seq<char>),
    Nested(Box<MessageView>),
    Key(Seq<char>),
}

/// The abstract form of `CatalogMessage`.
pub enum MessageView {
    Verbatim(Seq<char>),
    Localized { key: Seq<char>, args: Seq<(Seq<char>, ArgView)> },
}

/// The abstract form of a message argument.
pub open spec fn arg_view(a: MessageArg) -> ArgView
    decreases a,
{
    match a {
        MessageArg::Text(s) => ArgView::Text(s@),
        MessageArg::Nested(m) => ArgView::Nested(Box::new(message_view(*m))),
        MessageArg::Key(k) => ArgView::Key(k@),
    }
}

/// The abstract form of a message.
pub open spec fn message_view(m: CatalogMessage) -> MessageView
    decreases m,
{
    match m {
        CatalogMessage::Verbatim(s) => MessageView::Verbatim(s@),
        CatalogMessage::Localized { key, args } => MessageView::Localized {
            key: key@,
            args: args_view(args@),
        },
    }
}

/// The abstract form of a list of named arguments.
pub open spec fn args_view(args: Seq<(&'static str, MessageArg)>) -> Seq<(Seq<char>, ArgView)>
    decreases args,
{
    if args.len() == 0 {
        Seq::empty()
    } else {
        seq![(args[0].0@, arg_view(args[0].1))] + args_view(args.drop_first())
    }
}

/// Appending an argument appends its view.
pub proof fn lemma_args_view_push(args: Seq<(&'static str, MessageArg)>, arg: (&'static str, MessageArg))
    ensures
        args_view(args.push(arg)) == args_view(args).push((arg.0@, arg_view(arg.1))),
    decreases args.len(),
{
    if args.len() == 0 {
        assert(args.push(arg).drop_first() =~= Seq::<(&'static str, MessageArg)>::empty());
        assert(args_view(Seq::<(&'static str, MessageArg)>::empty()) =~= Seq::<(Seq<char>, ArgView)>::empty());
        assert(seq![(arg.0@, arg_view(arg.1))] + Seq::<(Seq<char>, ArgView)>::empty() =~= seq![(arg.0@, arg_view(arg.1))]);
    } else {
        lemma_args_view_push(args.drop_first(), arg);
        assert(args.push(arg).drop_first() =~= args.drop_first().push(arg));
        let a = seq![(args[0].0@, arg_view(args[0].1))];
        assert(a + args_view(args.drop_first()).push((arg.0@, arg_view(arg.1)))
            =~= (a + args_view(args.drop_first())).push((arg.0@, arg_view(arg.1))));
    }
}

/// The view of a list of named arguments, element by element.
pub proof fn lemma_args_view_map(args: Seq<(&'static str, MessageArg)>)
    ensures
        args_view(args) == args.map_values(|a: (&'static str, MessageArg)| (a.0@, arg_view(a.1))),
    decreases args.len(),
{
    if args.len() > 0 {
        lemma_args_view_map(args.drop_first());
        assert(args_view(args) =~= args.map_values(|a: (&'static str, MessageArg)| (a.0@, arg_view(a.1))));
    } else {
        assert(args_view(args) =~= args.map_values(|a: (&'static str, MessageArg)| (a.0@, arg_view(a.1))));
    }
}

} // verus!
