//! Retrieval of the context that was attached to an `anyhow::Error`.
//!
//! An error gathers annotations as it travels up: each layer that handles it may
//! attach one more value with `anyhow::Error::context`. The layer that reports
//! the error asks for the [`Context`] that stands for it. It gets the `Context`
//! that was attached last, so that a layer nearer to the user can refine what a
//! lower layer said; where no `Context` was attached, the bare [`Code`] that was
//! attached last; and where neither was, nothing, or on request a context made
//! from the root cause.
use crate::code::Code;
use crate::context::{Context, ContextView};
use crate::private::Sealed;
use std::fmt::Write;
use vstd::prelude::*;

verus! {

/// `anyhow::Error`: opaque here, known by its [`annotations`].
#[verifier::external_type_specification]
#[verifier::external_body]
pub struct ExError(anyhow::Error);

/// One value held by an error, as far as retrieval tells values apart.
pub enum Annotation {
    /// A [`Context`] of this crate.
    Context(ContextView),
    /// A bare [`Code`] of this crate.
    Code(Code),
    /// A value of any other type.
    Other,
}

impl Annotation {
    /// The context that this annotation stands for, if it stands for one.
    pub open spec fn derived(self) -> Option<ContextView> {
        match self {
            Annotation::Context(context) => Some(context),
            Annotation::Code(code) => Some(ContextView::of_code(code)),
            Annotation::Other => None,
        }
    }
}

/// The values that `err` holds, in the order in which
/// `anyhow::Error::downcast_ref` looks at them: the values given to
/// `anyhow::Error::context` on the way, the one attached last first, and behind
/// them what the error was made from. A [`Context`] stands here by its view, a
/// bare [`Code`] by itself, and a value of any other type as
/// [`Annotation::Other`].
pub uninterp spec fn annotations(err: anyhow::Error) -> Seq<Annotation>;

/// The chain `layers` after `annotation` was attached to it.
pub open spec fn attached(layers: Seq<Annotation>, annotation: Annotation) -> Seq<Annotation> {
    seq![annotation] + layers
}

/// The first [`Context`] among `layers`, if there is one.
pub open spec fn first_context(layers: Seq<Annotation>) -> Option<ContextView>
    decreases layers.len(),
{
    if layers.len() == 0 {
        None
    } else {
        match layers[0] {
            Annotation::Context(context) => Some(context),
            _ => first_context(layers.drop_first()),
        }
    }
}

/// The first bare [`Code`] among `layers`, if there is one.
pub open spec fn first_code(layers: Seq<Annotation>) -> Option<Code>
    decreases layers.len(),
{
    if layers.len() == 0 {
        None
    } else {
        match layers[0] {
            Annotation::Code(code) => Some(code),
            _ => first_code(layers.drop_first()),
        }
    }
}

/// The context that stands for a chain: its first [`Context`]; where it holds
/// none, what its first bare [`Code`] stands for; where it holds neither, nothing.
pub open spec fn resolved(layers: Seq<Annotation>) -> Option<ContextView> {
    match first_context(layers) {
        Some(context) => Some(context),
        None => match first_code(layers) {
            Some(code) => Some(ContextView::of_code(code)),
            None => None,
        },
    }
}

/// The context that stands for a chain whose root cause displayed `root_cause`
/// when it was asked: what [`resolved`] gives, and where it gives nothing, an
/// unknown code with that text as the message.
pub open spec fn resolved_or_root_cause(
    layers: Seq<Annotation>,
    root_cause: Seq<char>,
) -> ContextView {
    match resolved(layers) {
        Some(context) => context,
        None => ContextView { code: Code::Unknown, message: Some(root_cause) },
    }
}

/// Where the first [`Context`] of a chain stands: a context is the first one
/// exactly if it stands at some place of the chain with no context before it.
pub proof fn lemma_first_context_is_outermost(layers: Seq<Annotation>, context: ContextView)
    ensures
        first_context(layers) == Some(context) <==> exists|i: int|
            0 <= i < layers.len() && #[trigger] layers[i] == Annotation::Context(context)
                && forall|j: int| 0 <= j < i ==> !(#[trigger] layers[j] is Context),
    decreases layers.len(),
{
    if layers.len() > 0 && !(layers[0] is Context) {
        let rest = layers.drop_first();
        lemma_first_context_is_outermost(rest, context);
        if first_context(rest) == Some(context) {
            let i = choose|i: int|
                0 <= i < rest.len() && #[trigger] rest[i] == Annotation::Context(context)
                    && forall|j: int| 0 <= j < i ==> !(#[trigger] rest[j] is Context);
            assert(layers[i + 1] == rest[i]);
            assert forall|j: int| 0 <= j < i + 1 implies !(#[trigger] layers[j] is Context) by {
                if j > 0 {
                    assert(layers[j] == rest[j - 1]);
                }
            }
        }
        if exists|i: int|
            0 <= i < layers.len() && #[trigger] layers[i] == Annotation::Context(context)
                && forall|j: int| 0 <= j < i ==> !(#[trigger] layers[j] is Context) {
            let i = choose|i: int|
                0 <= i < layers.len() && #[trigger] layers[i] == Annotation::Context(context)
                    && forall|j: int| 0 <= j < i ==> !(#[trigger] layers[j] is Context);
            assert(rest[i - 1] == layers[i]);
            assert forall|j: int| 0 <= j < i - 1 implies !(#[trigger] rest[j] is Context) by {
                assert(rest[j] == layers[j + 1]);
            }
        }
    }
}

/// Where the first bare [`Code`] of a chain stands: a code is the first one
/// exactly if it stands at some place of the chain with no bare code before it.
pub proof fn lemma_first_code_is_outermost(layers: Seq<Annotation>, code: Code)
    ensures
        first_code(layers) == Some(code) <==> exists|i: int|
            0 <= i < layers.len() && #[trigger] layers[i] == Annotation::Code(code)
                && forall|j: int| 0 <= j < i ==> !(#[trigger] layers[j] is Code),
    decreases layers.len(),
{
    if layers.len() > 0 && !(layers[0] is Code) {
        let rest = layers.drop_first();
        lemma_first_code_is_outermost(rest, code);
        if first_code(rest) == Some(code) {
            let i = choose|i: int|
                0 <= i < rest.len() && #[trigger] rest[i] == Annotation::Code(code)
                    && forall|j: int| 0 <= j < i ==> !(#[trigger] rest[j] is Code);
            assert(layers[i + 1] == rest[i]);
            assert forall|j: int| 0 <= j < i + 1 implies !(#[trigger] layers[j] is Code) by {
                if j > 0 {
                    assert(layers[j] == rest[j - 1]);
                }
            }
        }
        if exists|i: int|
            0 <= i < layers.len() && #[trigger] layers[i] == Annotation::Code(code)
                && forall|j: int| 0 <= j < i ==> !(#[trigger] layers[j] is Code) {
            let i = choose|i: int|
                0 <= i < layers.len() && #[trigger] layers[i] == Annotation::Code(code)
                    && forall|j: int| 0 <= j < i ==> !(#[trigger] layers[j] is Code);
            assert(rest[i - 1] == layers[i]);
            assert forall|j: int| 0 <= j < i - 1 implies !(#[trigger] rest[j] is Code) by {
                assert(rest[j] == layers[j + 1]);
            }
        }
    }
}

/// A chain holds no [`Context`] exactly if [`first_context`] finds none.
pub proof fn lemma_first_context_none(layers: Seq<Annotation>)
    ensures
        first_context(layers) is None <==> forall|i: int|
            0 <= i < layers.len() ==> !(#[trigger] layers[i] is Context),
    decreases layers.len(),
{
    if layers.len() > 0 && !(layers[0] is Context) {
        let rest = layers.drop_first();
        lemma_first_context_none(rest);
        if first_context(rest) is None {
            assert forall|i: int| 0 <= i < layers.len() implies !(#[trigger] layers[i]
                is Context) by {
                if i > 0 {
                    assert(layers[i] == rest[i - 1]);
                }
            }
        }
        if forall|i: int| 0 <= i < layers.len() ==> !(#[trigger] layers[i] is Context) {
            assert forall|i: int| 0 <= i < rest.len() implies !(#[trigger] rest[i] is Context) by {
                assert(rest[i] == layers[i + 1]);
            }
        }
    }
}

/// A chain holds no bare [`Code`] exactly if [`first_code`] finds none.
pub proof fn lemma_first_code_none(layers: Seq<Annotation>)
    ensures
        first_code(layers) is None <==> forall|i: int|
            0 <= i < layers.len() ==> !(#[trigger] layers[i] is Code),
    decreases layers.len(),
{
    if layers.len() > 0 && !(layers[0] is Code) {
        let rest = layers.drop_first();
        lemma_first_code_none(rest);
        if first_code(rest) is None {
            assert forall|i: int| 0 <= i < layers.len() implies !(#[trigger] layers[i]
                is Code) by {
                if i > 0 {
                    assert(layers[i] == rest[i - 1]);
                }
            }
        }
        if forall|i: int| 0 <= i < layers.len() ==> !(#[trigger] layers[i] is Code) {
            assert forall|i: int| 0 <= i < rest.len() implies !(#[trigger] rest[i] is Code) by {
                assert(rest[i] == layers[i + 1]);
            }
        }
    }
}

/// What attaching one more annotation does to the context of a chain: a
/// [`Context`] always takes over; a bare [`Code`] takes over unless the chain
/// holds a `Context`, which then stays; any other value changes nothing.
pub proof fn lemma_resolved_attached(layers: Seq<Annotation>, annotation: Annotation)
    ensures
        resolved(attached(layers, annotation)) == match annotation {
            Annotation::Context(context) => Some(context),
            Annotation::Code(code) => match first_context(layers) {
                Some(context) => Some(context),
                None => Some(ContextView::of_code(code)),
            },
            Annotation::Other => resolved(layers),
        },
{
    assert(attached(layers, annotation).drop_first() == layers);
}

/// Of two annotations attached one after the other, the later one decides, if
/// it is a [`Context`] or a bare [`Code`]. The one case left out is a bare
/// `Code` attached to a chain that holds a `Context`, be it the earlier
/// annotation or one below it: there the `Context` stays, because a context is
/// preferred to a bare code wherever it stands (see
/// [`lemma_resolved_attached`]).
pub proof fn lemma_later_annotation_wins(
    layers: Seq<Annotation>,
    earlier: Annotation,
    later: Annotation,
)
    requires
        !(later is Other),
        later is Code ==> !(earlier is Context) && first_context(layers) is None,
    ensures
        resolved(attached(attached(layers, earlier), later)) == later.derived(),
{
    lemma_resolved_attached(layers, earlier);
    lemma_resolved_attached(attached(layers, earlier), later);
    assert(attached(layers, earlier).drop_first() == layers);
}

/// A chain stands for no context exactly if it holds neither a [`Context`] nor
/// a bare [`Code`]; such a chain falls back to an unknown code and the text of
/// its root cause.
pub proof fn lemma_resolved_none(layers: Seq<Annotation>, root_cause: Seq<char>)
    ensures
        resolved(layers) is None <==> forall|i: int|
            0 <= i < layers.len() ==> #[trigger] layers[i] is Other,
        resolved(layers) is None ==> resolved_or_root_cause(layers, root_cause) == (ContextView {
            code: Code::Unknown,
            message: Some(root_cause),
        }),
        resolved(layers) is Some ==> Some(resolved_or_root_cause(layers, root_cause)) == resolved(
            layers,
        ),
{
    lemma_first_context_none(layers);
    lemma_first_code_none(layers);
}

/// Calls `anyhow::Error::downcast_ref::<Context>`, which looks at the values of
/// the error from the one attached last and returns the first of that type.
/// Trusted: that what it returns is the first `Context` of [`annotations`], and
/// that it returns nothing exactly if there is none.
#[verifier::external_body]
fn downcast_context(err: &anyhow::Error) -> (found: Option<&Context>)
    ensures
        match found {
            Some(context) => first_context(annotations(*err)) == Some(context@),
            None => first_context(annotations(*err)) is None,
        },
{
    err.downcast_ref::<Context>()
}

/// Calls `anyhow::Error::downcast_ref::<Code>`, which looks at the values of
/// the error from the one attached last and returns the first of that type.
/// Trusted: that what it returns is the first bare `Code` of [`annotations`],
/// and that it returns nothing exactly if there is none.
#[verifier::external_body]
fn downcast_code(err: &anyhow::Error) -> (found: Option<&Code>)
    ensures
        match found {
            Some(code) => first_code(annotations(*err)) == Some(*code),
            None => first_code(annotations(*err)) is None,
        },
{
    err.downcast_ref::<Code>()
}

/// Calls `anyhow::Error::root_cause` and writes what it displays into a fresh
/// string. Both steps run code of whoever wrote the errors of the chain:
/// `root_cause` follows their `source` to its end, and the text comes from the
/// root cause's own `Display`. So nothing is claimed of the text, not even that
/// it is the same when asked again, and the call returns only if that code
/// does: if the chain of sources ends and the root cause's `Display` does not
/// panic. An error that this `Display` reports is dropped, and the text written
/// up to it is kept.
#[verifier::external_body]
fn display_root_cause(err: &anyhow::Error) -> (text: String) {
    let mut text = String::new();
    let _ = write!(text, "{}", err.root_cause());
    text
}

/// A way to obtain attached Code or context information from `anyhow` contexts, so that
/// the more complete information is preferred.
pub trait AnyhowContextExt: Sealed {
    /// Return our custom context that might be attached to this instance.
    ///
    /// Note that it could not be named `context()` as this method already exists.
    fn custom_context(&self) -> Option<Context>;

    /// Return our custom context or default it to the root-cause of the error.
    fn custom_context_or_root_cause(&self) -> Context;
}

impl Sealed for anyhow::Error {

}

impl AnyhowContextExt for anyhow::Error {
    /// The `Context` attached last; where none was attached, the bare `Code`
    /// attached last, as a context without a message; where neither was, `None`.
    fn custom_context(&self) -> (found: Option<Context>)
        ensures
            match found {
                Some(context) => resolved(annotations(*self)) == Some(context@),
                None => resolved(annotations(*self)) is None,
            },
    {
        match downcast_context(self) {
            Some(context) => Some(context.clone()),
            None => match downcast_code(self) {
                Some(code) => Some(Context::from(*code)),
                None => None,
            },
        }
    }

    /// What [`custom_context`](AnyhowContextExt::custom_context) finds; where it
    /// finds nothing, an unknown code with a message: the text that the root
    /// cause displayed, whatever that was. [`Context::new`] states what is made
    /// of that text.
    fn custom_context_or_root_cause(&self) -> (context: Context)
        ensures
            match resolved(annotations(*self)) {
                Some(found) => context@ == found,
                None => context.code == Code::Unknown && context.message is Some,
            },
            context@ == resolved_or_root_cause(annotations(*self), context@.text()),
    {
        match self.custom_context() {
            Some(context) => context,
            None => Context::new(display_root_cause(self)),
        }
    }
}

} // verus!
