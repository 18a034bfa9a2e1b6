use vstd::prelude::*;

verus! {

/// The abstract heap types of WebAssembly reference types.
#[derive(Debug, Clone, Copy, PartialEq, Eq, Structural)]
pub enum AbstractHeapType {
    Func,
    NoFunc,
    Extern,
    NoExtern,
    Any,
    Eq,
    I31,
    Struct,
    Array,
    /// The `none` heap type, bottom of the `any` hierarchy.
    NoneType,
}

/// A heap type: abstract, or concrete, given by its index in a [`Context`].
#[derive(Debug, Clone, Copy, PartialEq, Eq, Structural)]
pub enum HeapType {
    Abstract(AbstractHeapType),
    Concrete(u32),
}

/// The definitions of the concrete heap types: type `i` is `types[i]`.
pub struct Context {
    pub types: Vec<HeapType>,
}

/// Matching of abstract heap types: each matches itself, `eq` matches
/// `any`, and `i31` matches `eq`.
pub open spec fn spec_abstract_matches(a: AbstractHeapType, b: AbstractHeapType) -> bool {
    ||| a == b
    ||| a == AbstractHeapType::Eq && b == AbstractHeapType::Any
    ||| a == AbstractHeapType::I31 && b == AbstractHeapType::Eq
}

/// The abstract matching on the results of resolution, where both are there.
pub open spec fn spec_resolved_match(a: Option<AbstractHeapType>, b: Option<AbstractHeapType>) -> bool {
    match (a, b) {
        (Some(x), Some(y)) => spec_abstract_matches(x, y),
        _ => false,
    }
}

impl Context {
    /// Follows at most `fuel` concrete indices from `h` and gives the abstract
    /// heap type reached, or `None` where an index is out of range or the fuel
    /// runs out first.
    pub open spec fn resolve_within(self, h: HeapType, fuel: nat) -> Option<AbstractHeapType>
        decreases fuel,
    {
        match h {
            HeapType::Abstract(a) => Some(a),
            HeapType::Concrete(i) => if fuel == 0 || i >= self.types@.len() {
                None
            } else {
                self.resolve_within(self.types@[i as int], (fuel - 1) as nat)
            },
        }
    }

    /// Following the concrete indices from `h` reaches an abstract heap type:
    /// every index on the way is in range and the chain has no cycle.
    pub open spec fn resolves(self, h: HeapType) -> bool {
        exists|fuel: nat| (#[trigger] self.resolve_within(h, fuel)) is Some
    }

    /// The abstract heap type that `h` stands for, where it resolves.
    pub open spec fn resolved(self, h: HeapType) -> AbstractHeapType {
        self.resolve_within(h, choose|fuel: nat| (#[trigger] self.resolve_within(h, fuel)) is Some).unwrap()
    }

    /// Two heap types match when the abstract heap types they stand for match.
    pub open spec fn spec_matches(self, a: HeapType, b: HeapType) -> bool {
        spec_abstract_matches(self.resolved(a), self.resolved(b))
    }

    /// The definition of concrete type `index`.
    pub fn type_at(&self, index: u32) -> (r: &HeapType)
        requires
            index < self.types@.len(),
        ensures
            *r == self.types@[index as int],
    {
        &self.types[index as usize]
    }
}

/// More fuel reaches the same abstract heap type.
pub proof fn lemma_resolve_within_monotonic(ctx: Context, h: HeapType, f: nat, g: nat)
    requires
        f <= g,
        ctx.resolve_within(h, f) is Some,
    ensures
        ctx.resolve_within(h, g) == ctx.resolve_within(h, f),
    decreases f,
{
    if let HeapType::Concrete(i) = h {
        lemma_resolve_within_monotonic(ctx, ctx.types@[i as int], (f - 1) as nat, (g - 1) as nat);
    }
}

/// Whatever fuel resolves `h` gives [`Context::resolved`].
pub proof fn lemma_resolved_any_fuel(ctx: Context, h: HeapType, f: nat)
    requires
        ctx.resolve_within(h, f) is Some,
    ensures
        ctx.resolves(h),
        ctx.resolve_within(h, f) == Some(ctx.resolved(h)),
{
    let g = choose|fuel: nat| (#[trigger] ctx.resolve_within(h, fuel)) is Some;
    if f <= g {
        lemma_resolve_within_monotonic(ctx, h, f, g);
    } else {
        lemma_resolve_within_monotonic(ctx, h, g, f);
    }
}

impl HeapType {
    fn matches_within(
        &self,
        other: &HeapType,
        context: &Context,
        Ghost(f1): Ghost<nat>,
        Ghost(f2): Ghost<nat>,
    ) -> (r: bool)
        requires
            context.resolve_within(*self, f1) is Some,
            context.resolve_within(*other, f2) is Some,
        ensures
            r == spec_resolved_match(context.resolve_within(*self, f1), context.resolve_within(*other, f2)),
        decreases f1, f2,
    {
        match (self, other) {
            (HeapType::Abstract(a), HeapType::Abstract(b)) => {
                *a == *b || (*a == AbstractHeapType::Eq && *b == AbstractHeapType::Any) || (*a
                    == AbstractHeapType::I31 && *b == AbstractHeapType::Eq)
            },
            (HeapType::Concrete(x1), _) => context.type_at(*x1).matches_within(
                other,
                context,
                Ghost((f1 - 1) as nat),
                Ghost(f2),
            ),
            (_, HeapType::Concrete(x2)) => self.matches_within(
                context.type_at(*x2),
                context,
                Ghost(f1),
                Ghost((f2 - 1) as nat),
            ),
        }
    }

    /// Whether `self` matches `other` in `context`: concrete types are replaced
    /// by their definitions until both sides are abstract; an abstract heap
    /// type matches itself, `eq` matches `any`, and `i31` matches `eq`. Where a chain of definitions leaves the
    /// context or runs in a cycle the answer is never reached, so both sides
    /// must resolve.
    pub fn matches(&self, other: &HeapType, context: &Context) -> (r: bool)
        requires
            context.resolves(*self),
            context.resolves(*other),
        ensures
            r == context.spec_matches(*self, *other),
    {
        let ghost f1 = choose|fuel: nat| (#[trigger] context.resolve_within(*self, fuel)) is Some;
        let ghost f2 = choose|fuel: nat| (#[trigger] context.resolve_within(*other, fuel)) is Some;
        proof {
            lemma_resolved_any_fuel(*context, *self, f1);
            lemma_resolved_any_fuel(*context, *other, f2);
        }
        self.matches_within(other, context, Ghost(f1), Ghost(f2))
    }
}

/// An abstract heap type stands for itself, so two abstract heap types
/// match exactly as the abstract rules say: each matches itself, `eq`
/// matches `any`, and `i31` matches `eq`.
pub proof fn law_abstract_matches(ctx: Context, a: AbstractHeapType, b: AbstractHeapType)
    ensures
        ctx.resolves(HeapType::Abstract(a)),
        ctx.resolved(HeapType::Abstract(a)) == a,
        ctx.spec_matches(HeapType::Abstract(a), HeapType::Abstract(b)) <==> (a == b || (a
            == AbstractHeapType::Eq && b == AbstractHeapType::Any) || (a == AbstractHeapType::I31
            && b == AbstractHeapType::Eq)),
{
    lemma_resolved_any_fuel(ctx, HeapType::Abstract(a), 0);
    lemma_resolved_any_fuel(ctx, HeapType::Abstract(b), 0);
}

/// A concrete type that resolves has its index in range, its definition
/// resolves too, and the two match.
pub proof fn law_concrete_matches_definition(ctx: Context, i: u32)
    requires
        ctx.resolves(HeapType::Concrete(i)),
    ensures
        i < ctx.types@.len(),
        ctx.resolves(ctx.types@[i as int]),
        ctx.spec_matches(HeapType::Concrete(i), ctx.types@[i as int]),
{
    let f = choose|fuel: nat| (#[trigger] ctx.resolve_within(HeapType::Concrete(i), fuel)) is Some;
    lemma_resolved_any_fuel(ctx, HeapType::Concrete(i), f);
    lemma_resolved_any_fuel(ctx, ctx.types@[i as int], (f - 1) as nat);
}

/// Every heap type that resolves matches itself.
pub proof fn law_matches_is_reflexive(ctx: Context, a: HeapType)
    requires
        ctx.resolves(a),
    ensures
        ctx.spec_matches(a, a),
{
}

} // verus!
