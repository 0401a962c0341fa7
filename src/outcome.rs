//! Outcomes of fixture bodies and the protocol that unwraps them.

use vstd::prelude::*;

verus! {

/// The deepest nesting of success/failure layers that [`unwrap`] descends
/// through; deeper nesting is not supported.
pub const MAX_DEPTH: usize = 4;

/// The representation stored in place of a panic payload.
pub const PANIC_SENTINEL: &'static str = "\"panicked\"";

/// Why a fixture body produced no value.
pub enum Failure {
    /// The body returned an error; holds the error's debug representation.
    Raised(String),
    /// The body panicked; its payload is not kept.
    Panicked,
}

impl Failure {
    /// The text that stands for this failure in messages.
    pub open spec fn spec_repr(&self) -> Seq<char> {
        match self {
            Failure::Raised(s) => s@,
            Failure::Panicked => PANIC_SENTINEL@,
        }
    }

    /// Returns the text that stands for this failure in messages.
    pub fn repr(&self) -> (r: String)
        ensures
            r@ == self.spec_repr(),
    {
        match self {
            Failure::Raised(s) => s.clone(),
            Failure::Panicked => String::from_str(PANIC_SENTINEL),
        }
    }
}

/// The innermost success of a fixture body: the value itself.
pub struct ReportSuccess<T>(pub T);

impl<T> ReportSuccess<T> {
    /// Borrows the wrapped value.
    pub fn static_borrow(&self) -> (r: &T)
        ensures
            *r == self.0,
    {
        &self.0
    }
}

/// A fixture body's return value, one success/failure layer at a time.
pub enum Layer<T> {
    /// The leaf value.
    Value(ReportSuccess<T>),
    /// A success layer around a further layer.
    Pass(Box<Layer<T>>),
    /// A failure layer; holds the error's debug representation.
    Fail(String),
}

/// What a body yields once run: its layered value, or the failure that
/// stopped it before it returned.
pub type Outcome<T> = Result<Layer<T>, Failure>;

/// How many layers lie above the leaf.
pub open spec fn depth<T>(l: Layer<T>) -> nat
    decreases l,
{
    match l {
        Layer::Value(_) => 0,
        Layer::Pass(inner) => 1 + depth(*inner),
        Layer::Fail(_) => 1,
    }
}

/// The leaf that a layered value leads to: the value, or the first failure's
/// representation.
pub open spec fn leaf<T>(l: Layer<T>) -> Result<T, Seq<char>>
    decreases l,
{
    match l {
        Layer::Value(s) => Ok(s.0),
        Layer::Pass(inner) => leaf(*inner),
        Layer::Fail(e) => Err(e@),
    }
}

/// An outcome whose nesting the unwrap protocol supports.
pub open spec fn outcome_wf<T>(o: Outcome<T>) -> bool {
    o is Ok ==> depth(o->Ok_0) <= MAX_DEPTH
}

/// The leaf of an outcome: a failure to return counts as a failure.
pub open spec fn outcome_leaf<T>(o: Outcome<T>) -> Result<T, Seq<char>> {
    match o {
        Ok(l) => leaf(l),
        Err(f) => Err(f.spec_repr()),
    }
}

/// The message with which a read of a failed fixture fails.
pub open spec fn failure_message(context: Seq<char>, repr: Seq<char>) -> Seq<char> {
    context + " failed: "@ + repr
}

/// What a read of outcome `o` under `context` gives: the leaf value, or the
/// failure message.
pub open spec fn unwrapped<T>(o: Outcome<T>, context: Seq<char>) -> Result<T, Seq<char>> {
    match outcome_leaf(o) {
        Ok(v) => Ok(v),
        Err(e) => Err(failure_message(context, e)),
    }
}

/// A read result seen through its values.
pub open spec fn read_view<T>(r: Result<&T, String>) -> Result<T, Seq<char>> {
    match r {
        Ok(x) => Ok(*x),
        Err(m) => Err(m@),
    }
}

/// Wraps a plain return value as an always-succeeding outcome layer.
pub struct Fixer<T>(pub T);

impl<T> Fixer<T> {
    /// Treats a plain value as one success layer around the value.
    pub fn fix(self) -> (r: Layer<T>)
        ensures
            r == Layer::Pass(Box::new(Layer::Value(ReportSuccess(self.0)))),
            leaf(r) == Ok::<T, Seq<char>>(self.0),
            depth(r) == 1,
    {
        proof {
            reveal_with_fuel(leaf, 2);
            reveal_with_fuel(depth, 2);
        }
        Layer::Pass(Box::new(Layer::Value(ReportSuccess(self.0))))
    }
}

impl<T> Layer<T> {
    /// Turns one success/failure layer, whose error is given by its debug
    /// representation, into a layer.
    pub fn from_result(r: Result<Layer<T>, String>) -> (l: Layer<T>)
        ensures
            match r {
                Ok(inner) => l == Layer::Pass(Box::new(inner)),
                Err(e) => l == Layer::<T>::Fail(e),
            },
    {
        match r {
            Ok(inner) => Layer::Pass(Box::new(inner)),
            Err(e) => Layer::Fail(e),
        }
    }

    /// Whether at most `levels` layers lie above the leaf.
    fn depth_at_most(&self, levels: usize) -> (r: bool)
        ensures
            r == (depth(*self) <= levels),
        decreases levels,
    {
        match self {
            Layer::Value(_) => true,
            Layer::Fail(_) => levels >= 1,
            Layer::Pass(inner) => {
                if levels == 0 {
                    false
                } else {
                    inner.depth_at_most(levels - 1)
                }
            },
        }
    }

    /// Whether the unwrap protocol supports this nesting.
    pub fn within_max_depth(&self) -> (r: bool)
        ensures
            r == (depth(*self) <= MAX_DEPTH),
    {
        self.depth_at_most(MAX_DEPTH)
    }
}

/// Builds the message `"<context> failed: <repr>"`.
fn failed(context: &str, repr: &str) -> (m: String)
    ensures
        m@ == failure_message(context@, repr@),
{
    let mut m = String::from_str(context);
    m.append(" failed: ");
    m.append(repr);
    m
}

/// Descends through at most `levels` layers to the leaf value, or to the
/// first failure, which becomes the failure message.
fn unwrap_layer<'a, T>(l: &'a Layer<T>, context: &str, levels: usize) -> (r: Result<&'a T, String>)
    requires
        depth(*l) <= levels,
    ensures
        read_view(r) == unwrapped(Ok::<Layer<T>, Failure>(*l), context@),
    decreases levels,
{
    match l {
        Layer::Value(s) => Ok(s.static_borrow()),
        Layer::Pass(inner) => unwrap_layer(inner, context, levels - 1),
        Layer::Fail(e) => Err(failed(context, e.as_str())),
    }
}

/// Reads a fixture's outcome: the leaf value by shared reference, or, where
/// the body failed at any layer, the message `"<context> failed: <repr>"`.
pub fn unwrap<'a, T>(outcome: &'a Outcome<T>, context: &str) -> (r: Result<&'a T, String>)
    requires
        outcome_wf(*outcome),
    ensures
        read_view(r) == unwrapped(*outcome, context@),
{
    match outcome {
        Ok(l) => unwrap_layer(l, context, MAX_DEPTH),
        Err(f) => {
            let repr = f.repr();
            Err(failed(context, repr.as_str()))
        },
    }
}

/// A body that returned an explicit error at any layer: every read of its
/// outcome fails with one and the same message, which starts with the context
/// and ends with the error's representation.
pub proof fn explicit_error_replayed<T>(l: Layer<T>, context: Seq<char>, e: Seq<char>)
    requires
        leaf(l) == Err::<T, Seq<char>>(e),
    ensures
        unwrapped(Ok::<Layer<T>, Failure>(l), context) == Err::<T, Seq<char>>(
            failure_message(context, e),
        ),
        failure_message(context, e).subrange(0, context.len() as int) == context,
        failure_message(context, e).subrange(
            failure_message(context, e).len() - e.len(),
            failure_message(context, e).len() as int,
        ) == e,
{
    let m = failure_message(context, e);
    assert(m.subrange(0, context.len() as int) =~= context);
    assert(m.subrange(m.len() - e.len(), m.len() as int) =~= e);
}

/// A body that panicked: every read fails with the fixed sentinel message,
/// whatever the panic carried.
pub proof fn panic_normalized<T>(context: Seq<char>)
    ensures
        unwrapped(Err::<Layer<T>, Failure>(Failure::Panicked), context) == Err::<T, Seq<char>>(
            failure_message(context, PANIC_SENTINEL@),
        ),
{
}

/// Declaring a fixture one success layer inside the body's result reads the
/// same as the fixture of that inner layer: a success layer changes nothing a
/// read gives, and adds one to the depth.
pub proof fn success_layer_transparent<T>(l: Layer<T>, context: Seq<char>)
    ensures
        unwrapped(Ok::<Layer<T>, Failure>(Layer::Pass(Box::new(l))), context) == unwrapped(
            Ok::<Layer<T>, Failure>(l),
            context,
        ),
        depth(Layer::Pass(Box::new(l))) == depth(l) + 1,
{
}

/// A plain return value always reads back as itself, whatever the context.
pub proof fn plain_value_succeeds<T>(v: T, context: Seq<char>)
    ensures
        unwrapped(
            Ok::<Layer<T>, Failure>(Layer::Pass(Box::new(Layer::Value(ReportSuccess(v))))),
            context,
        ) == Ok::<T, Seq<char>>(v),
{
    reveal_with_fuel(leaf, 2);
}

} // verus!
