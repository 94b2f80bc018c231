//! The operation that cuts a string or a list to a length.
use vstd::prelude::*;
use crate::pipeline::Argument;
use crate::pipeline::ctx::{Ctx, CtxView};
use crate::value::{Value, ValueView};

verus! {

/// Keeps the first characters of a string, or the first items of a list, as
/// many as the argument says.
pub struct TruncateModifier {
    pub argument: Argument,
}

/// The first `n` items of `s`, or all of `s` where it has fewer.
pub open spec fn first_items<T>(s: Seq<T>, n: int) -> Seq<T> {
    if 0 <= n < s.len() {
        s.take(n)
    } else {
        s
    }
}

impl TruncateModifier {
    /// The cut to the length `argument`.
    pub fn new(argument: Argument) -> (r: Self)
        ensures
            r.argument == argument,
    {
        Self { argument }
    }

    /// What the operation makes of a context that stands, the argument being
    /// `argument`.
    pub open spec fn outcome(ctx: CtxView, argument: ValueView) -> CtxView {
        match argument.number() {
            Some(n) if 0 <= n <= usize::MAX => match ctx.value {
                ValueView::String(s) => ctx.with_value(ValueView::String(first_items(s, n))),
                ValueView::Vec(v) => ctx.with_value(ValueView::Vec(first_items(v, n))),
                _ => ctx.invalid("Value is not string or vector."@),
            },
            _ => ctx.invalid("Argument is not an unsigned integer."@),
        }
    }

    /// What the operation makes of `ctx`, where no host function has a say in
    /// it.
    pub open spec fn eval(self, ctx: CtxView) -> Option<CtxView>
        decreases self,
    {
        if !ctx.is_valid() {
            Some(ctx)
        } else {
            match self.argument.resolved(ctx) {
                Some(argument) => Some(Self::outcome(ctx, argument)),
                None => None,
            }
        }
    }

    /// Whether the operation, run on `ctx`, may leave `out`: a context that does
    /// not stand is left as it is; one that stands becomes what the operation
    /// makes of it with a value that the argument may resolve to.
    pub open spec fn yields(self, ctx: CtxView, out: CtxView) -> bool
        decreases self,
    {
        if !ctx.is_valid() {
            out == ctx
        } else {
            exists|argument: ValueView|
                self.argument.may_resolve(ctx, argument) && out == #[trigger] Self::outcome(
                    ctx,
                    argument,
                )
        }
    }

    /// Runs the operation on a context that stands, the argument being
    /// `argument`.
    pub fn apply<'a>(ctx: Ctx<'a>, argument: &Value) -> (r: Ctx<'a>)
        ensures
            r@ == Self::outcome(ctx@, argument@),
    {
        let n = match argument.as_usize() {
            Some(n) => n,
            None => {
                return ctx.invalid("Argument is not an unsigned integer.");
            },
        };
        match &ctx.value {
            Value::String(s) => {
                let len = s.as_str().unicode_len();
                let cut = if n < len {
                    String::from_str(s.as_str().substring_char(0, n))
                } else {
                    s.clone()
                };
                assert(cut@ =~= first_items(s@, n as int));
                ctx.with_value(Value::String(cut))
            },
            Value::Vec(v) => {
                let mut out: Vec<Value> = Vec::new();
                let mut i: usize = 0;
                while i < v.len() && i < n
                    invariant
                        i <= v.len(),
                        i <= n,
                        out.len() == i,
                        forall|j: int| 0 <= j < i ==> (#[trigger] out[j])@ == v[j]@,
                    decreases v.len() - i,
                {
                    out.push(v[i].clone());
                    i += 1;
                }
                let cut = Value::Vec(out);
                assert(cut@->Vec_0 =~= first_items(ctx.value@->Vec_0, n as int));
                ctx.with_value(cut)
            },
            _ => ctx.invalid("Value is not string or vector."),
        }
    }

    /// Runs the operation on `ctx`.
    pub fn call<'a>(&self, ctx: Ctx<'a>) -> (r: Ctx<'a>)
        ensures
            self.eval(ctx@) matches Some(c) ==> r@ == c,
            self.yields(ctx@, r@),
            !ctx@.is_valid() ==> r@ == ctx@,
            r@.framed_like(ctx@),
        decreases self,
    {
        if !ctx.is_valid() {
            return ctx;
        }
        let argument = self.argument.resolve(&ctx);
        Self::apply(ctx, &argument)
    }
}

} // verus!
