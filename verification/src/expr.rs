//! A model of the expressions that the lints inspect, and the recognition of method calls.

use vstd::prelude::*;

use crate::ty::Ty;

verus! {

/// A region of source code, by byte offsets.
#[derive(Clone, Copy, Debug, PartialEq, Eq, Structural)]
pub struct Span {
    pub lo: u32,
    pub hi: u32,
}

impl Span {
    /// The empty span at offset 0, used where no better location is known.
    pub fn dummy() -> (r: Span)
        ensures
            r == (Span { lo: 0, hi: 0 }),
    {
        Span { lo: 0, hi: 0 }
    }
}

/// An expression as the lints see it.
pub struct Expr {
    /// The identity of the expression node, used to report a lint on it.
    pub id: u64,
    /// Where the expression was written.
    pub span: Span,
    /// The type of the expression.
    pub ty: Ty,
    /// The type of the expression after automatic dereferencing and coercion.
    pub adjusted_ty: Ty,
    /// What kind of expression it is.
    pub kind: ExprKind,
}

/// The kinds of expressions that the lints tell apart.
pub enum ExprKind {
    /// A tuple expression `(a, b, ...)`.
    Tup(Vec<Expr>),
    /// A method call `receiver.name(args)`; `method_span` covers `name(args)`.
    MethodCall { name: String, method_span: Span, receiver: Box<Expr>, args: Vec<Expr> },
    /// A call `callee(args)` where the callee is a path.
    Call { callee: Callee, args: Vec<Expr> },
    /// A path that resolves to a definition; `fn_params` holds the parameter types of its
    /// signature when the definition is a function.
    Path { fn_params: Option<Vec<Ty>> },
    /// Any other expression.
    Other,
}

/// What the path of a call `path(args)` resolves to.
pub enum Callee {
    /// An associated function of some type or trait. `method_name` is the last segment of the
    /// path; `first_param_is_self` tells whether its first parameter is `self`.
    AssocFn { method_name: String, first_param_is_self: bool },
    /// A language item, such as the desugaring of `?`.
    LangItem,
    /// Any other callee.
    Other,
}

/// A method call, written either as `receiver.method(args)` or in its fully qualified form
/// `Type::method(receiver, args)`.
pub struct MethodCall<'a> {
    /// The name of the called method.
    pub method_name: &'a String,
    /// The receiver, `self`.
    pub receiver: &'a Expr,
    /// The arguments after the receiver.
    pub args: &'a [Expr],
    /// The span of the call: `method(args)` for the short form, the whole call otherwise.
    pub span: Span,
    /// The call was written in its fully qualified form.
    pub is_fully_qualified: bool,
}

impl Expr {
    /// The expression is a call of an associated function whose first parameter is `self` but
    /// that is given no argument at all. A program that type-checks never holds one.
    pub open spec fn is_self_call_without_args(&self) -> bool {
        match self.kind {
            ExprKind::Call { callee: Callee::AssocFn { first_param_is_self, .. }, args } => {
                first_param_is_self && args@.len() == 0
            },
            _ => false,
        }
    }

    /// The expression is a method call, in either form.
    pub open spec fn is_method_call(&self) -> bool {
        match self.kind {
            ExprKind::MethodCall { .. } => true,
            ExprKind::Call { callee: Callee::AssocFn { first_param_is_self, .. }, .. } => {
                first_param_is_self
            },
            _ => false,
        }
    }
}

impl<'a> MethodCall<'a> {
    /// How `expr` reads as a method call: its name, receiver, remaining arguments, span and
    /// form, or `None` when it is not a method call.
    pub open spec fn spec_of(expr: &'a Expr) -> Option<(Seq<char>, Expr, Seq<Expr>, Span, bool)> {
        match expr.kind {
            ExprKind::MethodCall { name, method_span, receiver, args } => Some(
                (name@, *receiver, args@, method_span, false),
            ),
            ExprKind::Call {
                callee: Callee::AssocFn { method_name, first_param_is_self },
                args,
            } => if first_param_is_self && args@.len() > 0 {
                Some((method_name@, args@[0], args@.subrange(1, args@.len() as int), expr.span, true))
            } else {
                None
            },
            _ => None,
        }
    }

    /// The parts of this call, in the shape of [`MethodCall::spec_of`].
    pub open spec fn parts(&self) -> (Seq<char>, Expr, Seq<Expr>, Span, bool) {
        (self.method_name@, *self.receiver, self.args@, self.span, self.is_fully_qualified)
    }

    /// Recognises a method call in either of its two forms.
    pub fn try_from(expr: &'a Expr) -> (r: Option<MethodCall<'a>>)
        requires
            !expr.is_self_call_without_args(),
        ensures
            r is Some <==> expr.is_method_call(),
            r is Some <==> Self::spec_of(expr) is Some,
            r matches Some(c) ==> Self::spec_of(expr) == Some(c.parts()),
    {
        match &expr.kind {
            ExprKind::MethodCall { name, method_span, receiver, args } => Some(
                MethodCall {
                    method_name: name,
                    receiver: &**receiver,
                    args: args.as_slice(),
                    span: *method_span,
                    is_fully_qualified: false,
                },
            ),
            ExprKind::Call { callee, args } => match callee {
                Callee::AssocFn { method_name, first_param_is_self } => {
                    if *first_param_is_self {
                        let all = args.as_slice();
                        let rest = vstd::slice::slice_subrange(all, 1, all.len());
                        Some(
                            MethodCall {
                                method_name,
                                receiver: &all[0],
                                args: rest,
                                span: expr.span,
                                is_fully_qualified: true,
                            },
                        )
                    } else {
                        None
                    }
                },
                _ => None,
            },
            _ => None,
        }
    }
}

/// The span that covers a list of call arguments: from the start of the first to the end of the
/// last, or the dummy span when there are none.
pub open spec fn spec_span_args(args: Seq<Span>) -> Span {
    if args.len() == 0 {
        Span { lo: 0, hi: 0 }
    } else {
        Span { lo: args[0].lo, hi: args[args.len() - 1].hi }
    }
}

/// The span that covers the arguments of a call, given the spans of those arguments in order.
pub fn span_args(args: &[Span]) -> (r: Span)
    ensures
        r == spec_span_args(args@),
{
    let mut span = Span::dummy();
    if args.len() > 0 {
        span = args[0];
        span.hi = args[args.len() - 1].hi;
    }
    span
}

} // verus!
