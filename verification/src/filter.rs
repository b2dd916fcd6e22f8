//! The typed filter-expression language and its compiler to the service's
//! textual filter grammar.
//!
//! The grammar is two-level: an AND of members, each member being either a
//! single (possibly NOT-inverted) leaf predicate or an OR-group of such
//! leaves. Legality is enforced by the types: an OR-group is homogeneous
//! over one leaf kind, and an AND-group only accepts values that are already
//! a single filter or an OR-group, never a raw leaf.
//!
//! String leaves are rendered inside double quotes with backslash escaping
//! (see [`crate::text::escape_char`]); numeric leaves render in decimal.

use crate::text::dec_int;
use crate::text::escape_chars;
use crate::text::join_with;
use crate::text::lemma_join_with_snoc;
use crate::text::push_dec_i64;
use crate::text::push_dec_u64;
use crate::text::push_escaped;
use vstd::prelude::*;

verus! {

/// A quoted string of the filter grammar: the escaped text inside double
/// quotes.
pub open spec fn quoted(s: Seq<char>) -> Seq<char> {
    "\""@ + escape_chars(s) + "\""@
}

/// Appends `s`, escaped and double-quoted, to `out`.
fn push_quoted(out: &mut String, s: &str)
    ensures
        final(out)@ == old(out)@ + quoted(s@),
{
    out.append("\"");
    push_escaped(out, s);
    out.append("\"");
    proof {
        assert(final(out)@ =~= old(out)@ + quoted(s@));
    }
}

/// A numeric bound or comparison operand: one tagged case for each integer
/// width the service's grammar accepts.
#[derive(Copy, Clone, Debug, PartialEq)]
pub enum Number {
    U8(u8),
    U16(u16),
    U32(u32),
    Usize(usize),
    I8(i8),
    I16(i16),
    I32(i32),
    I64(i64),
    Isize(isize),
}

impl Number {
    /// The mathematical value of the operand.
    pub open spec fn value(self) -> int {
        match self {
            Number::U8(v) => v as int,
            Number::U16(v) => v as int,
            Number::U32(v) => v as int,
            Number::Usize(v) => v as int,
            Number::I8(v) => v as int,
            Number::I16(v) => v as int,
            Number::I32(v) => v as int,
            Number::I64(v) => v as int,
            Number::Isize(v) => v as int,
        }
    }

    /// How the operand renders: its decimal value.
    pub open spec fn rendered(self) -> Seq<char> {
        dec_int(self.value())
    }

    /// Appends the decimal rendering of the operand to `out`.
    pub fn push_rendered(self, out: &mut String)
        ensures
            final(out)@ == old(out)@ + self.rendered(),
    {
        match self {
            Number::U8(v) => push_dec_u64(out, v as u64),
            Number::U16(v) => push_dec_u64(out, v as u64),
            Number::U32(v) => push_dec_u64(out, v as u64),
            Number::Usize(v) => push_dec_u64(out, v as u64),
            Number::I8(v) => push_dec_i64(out, v as i64),
            Number::I16(v) => push_dec_i64(out, v as i64),
            Number::I32(v) => push_dec_i64(out, v as i64),
            Number::I64(v) => push_dec_i64(out, v),
            Number::Isize(v) => push_dec_i64(out, v as i64),
        }
    }
}

impl From<u8> for Number {
    fn from(v: u8) -> (r: Self) {
        Number::U8(v)
    }
}

impl vstd::std_specs::convert::FromSpecImpl<u8> for Number {
    open spec fn obeys_from_spec() -> bool {
        true
    }

    open spec fn from_spec(v: u8) -> Self {
        Number::U8(v)
    }
}

impl From<u16> for Number {
    fn from(v: u16) -> (r: Self) {
        Number::U16(v)
    }
}

impl vstd::std_specs::convert::FromSpecImpl<u16> for Number {
    open spec fn obeys_from_spec() -> bool {
        true
    }

    open spec fn from_spec(v: u16) -> Self {
        Number::U16(v)
    }
}

impl From<u32> for Number {
    fn from(v: u32) -> (r: Self) {
        Number::U32(v)
    }
}

impl vstd::std_specs::convert::FromSpecImpl<u32> for Number {
    open spec fn obeys_from_spec() -> bool {
        true
    }

    open spec fn from_spec(v: u32) -> Self {
        Number::U32(v)
    }
}

impl From<usize> for Number {
    fn from(v: usize) -> (r: Self) {
        Number::Usize(v)
    }
}

impl vstd::std_specs::convert::FromSpecImpl<usize> for Number {
    open spec fn obeys_from_spec() -> bool {
        true
    }

    open spec fn from_spec(v: usize) -> Self {
        Number::Usize(v)
    }
}

impl From<i8> for Number {
    fn from(v: i8) -> (r: Self) {
        Number::I8(v)
    }
}

impl vstd::std_specs::convert::FromSpecImpl<i8> for Number {
    open spec fn obeys_from_spec() -> bool {
        true
    }

    open spec fn from_spec(v: i8) -> Self {
        Number::I8(v)
    }
}

impl From<i16> for Number {
    fn from(v: i16) -> (r: Self) {
        Number::I16(v)
    }
}

impl vstd::std_specs::convert::FromSpecImpl<i16> for Number {
    open spec fn obeys_from_spec() -> bool {
        true
    }

    open spec fn from_spec(v: i16) -> Self {
        Number::I16(v)
    }
}

impl From<i32> for Number {
    fn from(v: i32) -> (r: Self) {
        Number::I32(v)
    }
}

impl vstd::std_specs::convert::FromSpecImpl<i32> for Number {
    open spec fn obeys_from_spec() -> bool {
        true
    }

    open spec fn from_spec(v: i32) -> Self {
        Number::I32(v)
    }
}

impl From<i64> for Number {
    fn from(v: i64) -> (r: Self) {
        Number::I64(v)
    }
}

impl vstd::std_specs::convert::FromSpecImpl<i64> for Number {
    open spec fn obeys_from_spec() -> bool {
        true
    }

    open spec fn from_spec(v: i64) -> Self {
        Number::I64(v)
    }
}

impl From<isize> for Number {
    fn from(v: isize) -> (r: Self) {
        Number::Isize(v)
    }
}

impl vstd::std_specs::convert::FromSpecImpl<isize> for Number {
    open spec fn obeys_from_spec() -> bool {
        true
    }

    open spec fn from_spec(v: isize) -> Self {
        Number::Isize(v)
    }
}

/// The comparison operator of a numeric-comparison filter.
#[derive(Copy, Clone, Debug)]
pub enum FilterOperator {
    Lt,
    Le,
    Eq,
    Ne,
    Ge,
    Gt,
}

impl FilterOperator {
    /// How the operator renders in the grammar.
    pub open spec fn rendered(self) -> Seq<char> {
        match self {
            FilterOperator::Lt => "<"@,
            FilterOperator::Le => "<="@,
            FilterOperator::Eq => "="@,
            FilterOperator::Ne => "!="@,
            FilterOperator::Ge => ">="@,
            FilterOperator::Gt => ">"@,
        }
    }

    pub fn as_str(self) -> (r: &'static str)
        ensures
            r@ == self.rendered(),
    {
        match self {
            FilterOperator::Lt => "<",
            FilterOperator::Le => "<=",
            FilterOperator::Eq => "=",
            FilterOperator::Ne => "!=",
            FilterOperator::Ge => ">=",
            FilterOperator::Gt => ">",
        }
    }
}

/// Every filter type has a well-formedness condition and a rendering; the
/// trait also seals the hierarchy to the fixed set of filter types below.
pub trait Sealed {
    /// When the filter is legal to render.
    spec fn wf(&self) -> bool;

    /// The text the filter compiles to.
    spec fn rendered(&self) -> Seq<char>;
}

/// The leaf predicates: the filter kinds that may stand under a NOT or
/// inside an OR-group.
pub trait CommonFilterKind: Sealed + Sized {
    /// This leaf, erased to the closed union of leaf kinds.
    fn to_leaf(&self) -> (r: LeafFilter)
        requires
            self.wf(),
        ensures
            r.wf(),
            r.rendered() == self.rendered(),
    ;
}

/// A boolean-facet predicate, rendered as `"name":true` or `"name":false`.
#[derive(Clone, Debug)]
pub struct BooleanFilter {
    pub facet_name: String,
    pub value: bool,
}

/// The rendering of a boolean-facet predicate.
pub open spec fn spec_boolean_filter(name: Seq<char>, value: bool) -> Seq<char> {
    quoted(name) + ":"@ + (if value {
        "true"@
    } else {
        "false"@
    })
}

impl Sealed for BooleanFilter {
    open spec fn wf(&self) -> bool {
        true
    }

    open spec fn rendered(&self) -> Seq<char> {
        spec_boolean_filter(self.facet_name@, self.value)
    }
}

impl CommonFilterKind for BooleanFilter {
    fn to_leaf(&self) -> (r: LeafFilter) {
        LeafFilter::Boolean(BooleanFilter { facet_name: self.facet_name.clone(), value: self.value })
    }
}

/// A tag predicate, rendered as `_tags:"value"`.
#[derive(Clone, Debug)]
pub struct TagFilter(pub String);

/// The rendering of a tag predicate.
pub open spec fn spec_tag_filter(value: Seq<char>) -> Seq<char> {
    "_tags:"@ + quoted(value)
}

impl Sealed for TagFilter {
    open spec fn wf(&self) -> bool {
        true
    }

    open spec fn rendered(&self) -> Seq<char> {
        spec_tag_filter(self.0@)
    }
}

impl CommonFilterKind for TagFilter {
    fn to_leaf(&self) -> (r: LeafFilter) {
        LeafFilter::Tag(TagFilter(self.0.clone()))
    }
}

/// A facet-equality predicate, rendered as `"name":"value"`.
#[derive(Clone, Debug)]
pub struct FacetFilter {
    pub facet_name: String,
    pub value: String,
}

/// The rendering of a facet-equality predicate.
pub open spec fn spec_facet_filter(name: Seq<char>, value: Seq<char>) -> Seq<char> {
    quoted(name) + ":"@ + quoted(value)
}

impl Sealed for FacetFilter {
    open spec fn wf(&self) -> bool {
        true
    }

    open spec fn rendered(&self) -> Seq<char> {
        spec_facet_filter(self.facet_name@, self.value@)
    }
}

impl CommonFilterKind for FacetFilter {
    fn to_leaf(&self) -> (r: LeafFilter) {
        LeafFilter::Facet(FacetFilter { facet_name: self.facet_name.clone(), value: self.value.clone() })
    }
}

/// A scored facet predicate, rendered as `"name":"value"<score=N>`. The
/// service rejects scores outside `0 ..= i64::MAX`, so a negative score is
/// rejected at construction and is not well-formed.
#[derive(Clone, Debug)]
pub struct ScoredFacetFilter {
    pub facet_name: String,
    pub value: String,
    pub score: i64,
}

/// The rendering of a scored facet predicate.
pub open spec fn spec_scored_facet_filter(name: Seq<char>, value: Seq<char>, score: int) -> Seq<
    char,
> {
    quoted(name) + ":"@ + quoted(value) + "<score="@ + dec_int(score) + ">"@
}

impl Sealed for ScoredFacetFilter {
    open spec fn wf(&self) -> bool {
        0 <= self.score
    }

    open spec fn rendered(&self) -> Seq<char> {
        spec_scored_facet_filter(self.facet_name@, self.value@, self.score as int)
    }
}

impl CommonFilterKind for ScoredFacetFilter {
    fn to_leaf(&self) -> (r: LeafFilter) {
        LeafFilter::Scored(
            ScoredFacetFilter {
                facet_name: self.facet_name.clone(),
                value: self.value.clone(),
                score: self.score,
            },
        )
    }
}

impl ScoredFacetFilter {
    /// Builds a scored facet predicate, rejecting a score outside the range
    /// the service accepts. Succeeds exactly on scores in `0 ..= i64::MAX`.
    pub fn new(facet_name: String, value: String, score: i64) -> (r: Option<Self>)
        ensures
            r is Some <==> 0 <= score,
            r matches Some(f) ==> f == (ScoredFacetFilter { facet_name, value, score }),
    {
        if score >= 0 {
            Some(ScoredFacetFilter { facet_name, value, score })
        } else {
            None
        }
    }
}

/// A numeric-range predicate with inclusive bounds, rendered as
/// `"name": lower TO upper`.
#[derive(Clone, Debug)]
pub struct RangeFilter {
    pub attribute_name: String,
    pub lower_bound: Number,
    pub upper_bound: Number,
}

/// The rendering of a numeric-range predicate.
pub open spec fn spec_range_filter(name: Seq<char>, lower: int, upper: int) -> Seq<char> {
    quoted(name) + ": "@ + dec_int(lower) + " TO "@ + dec_int(upper)
}

impl Sealed for RangeFilter {
    open spec fn wf(&self) -> bool {
        true
    }

    open spec fn rendered(&self) -> Seq<char> {
        spec_range_filter(self.attribute_name@, self.lower_bound.value(), self.upper_bound.value())
    }
}

impl CommonFilterKind for RangeFilter {
    fn to_leaf(&self) -> (r: LeafFilter) {
        LeafFilter::Range(
            RangeFilter {
                attribute_name: self.attribute_name.clone(),
                lower_bound: self.lower_bound,
                upper_bound: self.upper_bound,
            },
        )
    }
}

impl RangeFilter {
    pub fn new<T: Into<Number>>(attribute_name: String, lower_bound: T, upper_bound: T) -> (r:
        Self)
        ensures
            r.attribute_name == attribute_name,
            call_ensures(T::into, (lower_bound,), r.lower_bound),
            call_ensures(T::into, (upper_bound,), r.upper_bound),
    {
        RangeFilter { attribute_name, lower_bound: lower_bound.into(), upper_bound: upper_bound.into() }
    }
}

/// A numeric-comparison predicate, rendered as `"name" OP value`.
#[derive(Clone, Debug)]
pub struct CmpFilter {
    pub attribute_name: String,
    pub operator: FilterOperator,
    pub value: Number,
}

/// The rendering of a numeric-comparison predicate.
pub open spec fn spec_cmp_filter(name: Seq<char>, op: FilterOperator, value: int) -> Seq<char> {
    quoted(name) + " "@ + op.rendered() + " "@ + dec_int(value)
}

impl Sealed for CmpFilter {
    open spec fn wf(&self) -> bool {
        true
    }

    open spec fn rendered(&self) -> Seq<char> {
        spec_cmp_filter(self.attribute_name@, self.operator, self.value.value())
    }
}

impl CommonFilterKind for CmpFilter {
    fn to_leaf(&self) -> (r: LeafFilter) {
        LeafFilter::Cmp(
            CmpFilter {
                attribute_name: self.attribute_name.clone(),
                operator: self.operator,
                value: self.value,
            },
        )
    }
}

impl CmpFilter {
    pub fn new<T: Into<Number>>(attribute_name: String, operator: FilterOperator, value: T) -> (r:
        Self)
        ensures
            r.attribute_name == attribute_name,
            r.operator == operator,
            call_ensures(T::into, (value,), r.value),
    {
        CmpFilter { attribute_name, operator, value: value.into() }
    }
}

/// The closed union of the leaf predicate kinds: what may stand under a NOT
/// or inside an OR-group once its concrete kind no longer matters.
#[derive(Clone, Debug)]
pub enum LeafFilter {
    Boolean(BooleanFilter),
    Tag(TagFilter),
    Facet(FacetFilter),
    Scored(ScoredFacetFilter),
    Range(RangeFilter),
    Cmp(CmpFilter),
}

impl Sealed for LeafFilter {
    open spec fn wf(&self) -> bool {
        match self {
            LeafFilter::Scored(f) => f.wf(),
            _ => true,
        }
    }

    open spec fn rendered(&self) -> Seq<char> {
        match self {
            LeafFilter::Boolean(f) => f.rendered(),
            LeafFilter::Tag(f) => f.rendered(),
            LeafFilter::Facet(f) => f.rendered(),
            LeafFilter::Scored(f) => f.rendered(),
            LeafFilter::Range(f) => f.rendered(),
            LeafFilter::Cmp(f) => f.rendered(),
        }
    }
}

impl CommonFilterKind for LeafFilter {
    fn to_leaf(&self) -> (r: LeafFilter) {
        match self {
            LeafFilter::Boolean(f) => f.to_leaf(),
            LeafFilter::Tag(f) => f.to_leaf(),
            LeafFilter::Facet(f) => f.to_leaf(),
            LeafFilter::Scored(f) => f.to_leaf(),
            LeafFilter::Range(f) => f.to_leaf(),
            LeafFilter::Cmp(f) => f.to_leaf(),
        }
    }
}

impl LeafFilter {
    /// Appends the rendering of this leaf to `out`.
    pub fn push_rendered(&self, out: &mut String)
        requires
            self.wf(),
        ensures
            final(out)@ == old(out)@ + self.rendered(),
    {
        match self {
            LeafFilter::Boolean(f) => {
                push_quoted(out, f.facet_name.as_str());
                out.append(":");
                if f.value {
                    out.append("true");
                } else {
                    out.append("false");
                }
                proof {
                    assert(final(out)@ =~= old(out)@ + self.rendered());
                }
            },
            LeafFilter::Tag(f) => {
                out.append("_tags:");
                push_quoted(out, f.0.as_str());
                proof {
                    assert(final(out)@ =~= old(out)@ + self.rendered());
                }
            },
            LeafFilter::Facet(f) => {
                push_quoted(out, f.facet_name.as_str());
                out.append(":");
                push_quoted(out, f.value.as_str());
                proof {
                    assert(final(out)@ =~= old(out)@ + self.rendered());
                }
            },
            LeafFilter::Scored(f) => {
                push_quoted(out, f.facet_name.as_str());
                out.append(":");
                push_quoted(out, f.value.as_str());
                out.append("<score=");
                push_dec_i64(out, f.score);
                out.append(">");
                proof {
                    assert(final(out)@ =~= old(out)@ + self.rendered());
                }
            },
            LeafFilter::Range(f) => {
                push_quoted(out, f.attribute_name.as_str());
                out.append(": ");
                f.lower_bound.push_rendered(out);
                out.append(" TO ");
                f.upper_bound.push_rendered(out);
                proof {
                    assert(final(out)@ =~= old(out)@ + self.rendered());
                }
            },
            LeafFilter::Cmp(f) => {
                push_quoted(out, f.attribute_name.as_str());
                out.append(" ");
                out.append(f.operator.as_str());
                out.append(" ");
                f.value.push_rendered(out);
                proof {
                    assert(final(out)@ =~= old(out)@ + self.rendered());
                }
            },
        }
    }
}

/// The renderings of the members of a group, in order.
pub open spec fn rendered_members<T: Sealed>(filters: Seq<T>) -> Seq<Seq<char>> {
    filters.map_values(|f: T| f.rendered())
}

/// A leaf predicate with an optional NOT inversion: the only form in which
/// a leaf may stand on its own or inside a group.
#[derive(Clone, Debug)]
pub struct CommonFilter<T: CommonFilterKind> {
    pub invert: bool,
    pub filter: T,
}

impl<T: CommonFilterKind> Sealed for CommonFilter<T> {
    open spec fn wf(&self) -> bool {
        self.filter.wf()
    }

    open spec fn rendered(&self) -> Seq<char> {
        (if self.invert {
            "NOT "@
        } else {
            Seq::<char>::empty()
        }) + self.filter.rendered()
    }
}

/// Appends the rendering of a single (possibly inverted) leaf to `out`.
fn push_common<T: CommonFilterKind>(out: &mut String, f: &CommonFilter<T>)
    requires
        f.wf(),
    ensures
        final(out)@ == old(out)@ + f.rendered(),
{
    if f.invert {
        out.append("NOT ");
    }
    let leaf = f.filter.to_leaf();
    leaf.push_rendered(out);
    proof {
        assert(final(out)@ =~= old(out)@ + f.rendered());
    }
}

/// An OR-group, homogeneous over one leaf kind, rendered as its members
/// joined by ` OR `. An empty group renders as the empty string.
#[derive(Clone, Debug)]
pub struct OrFilter<T: CommonFilterKind> {
    pub filters: Vec<CommonFilter<T>>,
}

impl<T: CommonFilterKind> Sealed for OrFilter<T> {
    open spec fn wf(&self) -> bool {
        forall|i: int| 0 <= i < self.filters@.len() ==> self.filters@[i].wf()
    }

    open spec fn rendered(&self) -> Seq<char> {
        join_with(rendered_members(self.filters@), " OR "@)
    }
}

impl<T: CommonFilterKind> Default for OrFilter<T> {
    /// The empty OR-group.
    fn default() -> (r: Self)
        ensures
            r.filters@.len() == 0,
    {
        OrFilter { filters: Vec::new() }
    }
}

/// Appends the members of an OR-group, joined by ` OR `, to `out`.
fn push_or_members<T: CommonFilterKind>(out: &mut String, filters: &Vec<CommonFilter<T>>)
    requires
        forall|i: int| 0 <= i < filters@.len() ==> filters@[i].wf(),
    ensures
        final(out)@ == old(out)@ + join_with(rendered_members(filters@), " OR "@),
{
    let ghost members = rendered_members(filters@);
    let n = filters.len();
    let mut i: usize = 0;
    while i < n
        invariant
            i <= n,
            n == filters@.len(),
            members == rendered_members(filters@),
            forall|j: int| 0 <= j < filters@.len() ==> filters@[j].wf(),
            out@ == old(out)@ + join_with(members.take(i as int), " OR "@),
        decreases n - i,
    {
        if i > 0 {
            out.append(" OR ");
        }
        push_common(out, &filters[i]);
        proof {
            assert(members.take(i + 1) =~= members.take(i as int).push(members[i as int]));
            lemma_join_with_snoc(members.take(i as int), members[i as int], " OR "@);
            assert(members[i as int] == filters@[i as int].rendered());
            assert(out@ =~= old(out)@ + join_with(members.take(i + 1), " OR "@));
        }
        i += 1;
    }
    proof {
        assert(members.take(n as int) =~= members);
    }
}

/// One member of an AND-group: either a single (possibly inverted) leaf or
/// an OR-group, with the leaf kind erased. The grammar accepts nothing else
/// under an AND.
#[derive(Clone, Debug)]
pub enum AndMember {
    Filter(CommonFilter<LeafFilter>),
    Group(OrFilter<LeafFilter>),
}

impl Sealed for AndMember {
    open spec fn wf(&self) -> bool {
        match self {
            AndMember::Filter(f) => f.wf(),
            AndMember::Group(g) => g.wf(),
        }
    }

    open spec fn rendered(&self) -> Seq<char> {
        match self {
            AndMember::Filter(f) => f.rendered(),
            AndMember::Group(g) => g.rendered(),
        }
    }
}

/// Appends the rendering of one AND-group member to `out`.
fn push_and_member(out: &mut String, m: &AndMember)
    requires
        m.wf(),
    ensures
        final(out)@ == old(out)@ + m.rendered(),
{
    match m {
        AndMember::Filter(f) => push_common(out, f),
        AndMember::Group(g) => push_or_members(out, &g.filters),
    }
}

/// The filter types that may stand inside an AND-group: single (possibly
/// inverted) leaves and OR-groups.
pub trait AndFilterable: Sealed + Sized {
    /// This filter, erased to the closed union of AND-group member shapes.
    fn into_and_member(self) -> (m: AndMember)
        requires
            self.wf(),
        ensures
            m.wf(),
            m.rendered() == self.rendered(),
    ;
}

impl<T: CommonFilterKind> AndFilterable for CommonFilter<T> {
    fn into_and_member(self) -> (m: AndMember) {
        AndMember::Filter(CommonFilter { invert: self.invert, filter: self.filter.to_leaf() })
    }
}

impl<T: CommonFilterKind> AndFilterable for OrFilter<T> {
    fn into_and_member(self) -> (m: AndMember) {
        let n = self.filters.len();
        let mut members: Vec<CommonFilter<LeafFilter>> = Vec::new();
        let mut i: usize = 0;
        while i < n
            invariant
                i <= n,
                n == self.filters@.len(),
                forall|j: int| 0 <= j < self.filters@.len() ==> self.filters@[j].wf(),
                members@.len() == i,
                forall|j: int|
                    0 <= j < i ==> (#[trigger] members@[j]).wf() && members@[j].rendered()
                        == self.filters@[j].rendered(),
            decreases n - i,
        {
            let f = &self.filters[i];
            let member = CommonFilter { invert: f.invert, filter: f.filter.to_leaf() };
            members.push(member);
            i += 1;
        }
        let group = OrFilter { filters: members };
        proof {
            assert(rendered_members(group.filters@) =~= rendered_members(self.filters@));
        }
        AndMember::Group(group)
    }
}

/// An AND-group, rendered as its members joined by ` AND `. An empty group
/// renders as the empty string.
#[derive(Clone, Debug)]
pub struct AndFilter {
    pub filters: Vec<AndMember>,
}

impl Sealed for AndFilter {
    open spec fn wf(&self) -> bool {
        forall|i: int| 0 <= i < self.filters@.len() ==> self.filters@[i].wf()
    }

    open spec fn rendered(&self) -> Seq<char> {
        join_with(rendered_members(self.filters@), " AND "@)
    }
}

impl Default for AndFilter {
    /// The empty AND-group.
    fn default() -> (r: Self)
        ensures
            r.filters@.len() == 0,
    {
        AndFilter { filters: Vec::new() }
    }
}

impl AndFilter {
    /// The empty AND-group.
    pub fn new() -> (r: Self)
        ensures
            r.filters@.len() == 0,
    {
        AndFilter { filters: Vec::new() }
    }

    /// Appends one member (a single filter or an OR-group) to the group.
    pub fn add<T: AndFilterable>(&mut self, f: T)
        requires
            f.wf(),
        ensures
            final(self).filters@.len() == old(self).filters@.len() + 1,
            final(self).filters@.take(old(self).filters@.len() as int) == old(self).filters@,
            final(self).filters@.last().wf(),
            final(self).filters@.last().rendered() == f.rendered(),
    {
        let member = f.into_and_member();
        self.filters.push(member);
        proof {
            assert(final(self).filters@.take(old(self).filters@.len() as int) =~= old(
                self,
            ).filters@);
        }
    }
}

/// The filter shapes that a search request accepts as its `filters`
/// parameter: a single filter, an OR-group, an AND-group, or the empty
/// filter.
pub trait Filterable: Sealed + Sized {
    /// Compiles the filter to the service's textual grammar.
    fn render(&self) -> (r: String)
        requires
            self.wf(),
        ensures
            r@ == self.rendered(),
    ;
}

impl<T: CommonFilterKind> Filterable for CommonFilter<T> {
    fn render(&self) -> (r: String) {
        let mut out = String::new();
        push_common(&mut out, self);
        proof {
            assert(Seq::<char>::empty() + self.rendered() =~= self.rendered());
        }
        out
    }
}

impl<T: CommonFilterKind> Filterable for OrFilter<T> {
    fn render(&self) -> (r: String) {
        let mut out = String::new();
        push_or_members(&mut out, &self.filters);
        proof {
            assert(Seq::<char>::empty() + self.rendered() =~= self.rendered());
        }
        out
    }
}

impl Filterable for AndFilter {
    fn render(&self) -> (r: String) {
        let ghost members = rendered_members(self.filters@);
        let mut out = String::new();
        let n = self.filters.len();
        let mut i: usize = 0;
        while i < n
            invariant
                i <= n,
                n == self.filters@.len(),
                members == rendered_members(self.filters@),
                forall|j: int| 0 <= j < self.filters@.len() ==> self.filters@[j].wf(),
                out@ == join_with(members.take(i as int), " AND "@),
            decreases n - i,
        {
            if i > 0 {
                out.append(" AND ");
            }
            push_and_member(&mut out, &self.filters[i]);
            proof {
                assert(members.take(i + 1) =~= members.take(i as int).push(members[i as int]));
                lemma_join_with_snoc(members.take(i as int), members[i as int], " AND "@);
                assert(members[i as int] == self.filters@[i as int].rendered());
                assert(out@ =~= join_with(members.take(i + 1), " AND "@));
            }
            i += 1;
        }
        proof {
            assert(members.take(n as int) =~= members);
        }
        out
    }
}

/// The absent filter: renders as the empty string, the identity element of
/// both joins.
#[derive(Debug, Copy, Clone)]
pub struct EmptyFilter;

impl Sealed for EmptyFilter {
    open spec fn wf(&self) -> bool {
        true
    }

    open spec fn rendered(&self) -> Seq<char> {
        Seq::<char>::empty()
    }
}

impl Default for EmptyFilter {
    fn default() -> (r: Self) {
        EmptyFilter
    }
}

impl Filterable for EmptyFilter {
    fn render(&self) -> (r: String) {
        String::new()
    }
}

} // verus!
