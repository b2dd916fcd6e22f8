//! Index attribute settings: the searchable-attributes list (ordered tiers
//! of attributes, each tier optionally unordered) and the faceting
//! attributes (each optionally restricted to filtering or widened to
//! searching). Both serialize as lists of strings; the string each entry
//! renders to is specified here.

use crate::text::join_with;
use crate::text::lemma_join_with_snoc;
use vstd::prelude::*;

verus! {

/// The name of a record attribute.
#[derive(Clone, Debug)]
pub struct Attribute(pub String);

/// The texts of a sequence of attribute names, in order.
pub open spec fn attribute_names(attrs: Seq<Attribute>) -> Seq<Seq<char>> {
    attrs.map_values(|a: Attribute| a.0@)
}

/// One priority tier of the searchable-attributes list: every attribute in
/// the tier shares the same priority.
#[derive(Clone, Debug)]
struct SearchableTier {
    unordered: bool,
    attributes: Vec<Attribute>,
}

/// The string one tier serializes to: the attribute names joined by commas,
/// wrapped in `unordered(..)` when the tier is unordered.
pub open spec fn spec_tier_rendered(unordered: bool, names: Seq<Seq<char>>) -> Seq<char> {
    (if unordered {
        "unordered("@
    } else {
        Seq::<char>::empty()
    }) + join_with(names, ","@) + (if unordered {
        ")"@
    } else {
        Seq::<char>::empty()
    })
}

impl SearchableTier {
    spec fn rendered(&self) -> Seq<char> {
        spec_tier_rendered(self.unordered, attribute_names(self.attributes@))
    }

    /// The string this tier serializes to.
    fn render(&self) -> (r: String)
        ensures
            r@ == self.rendered(),
    {
        let ghost names = attribute_names(self.attributes@);
        let mut out = String::new();
        if self.unordered {
            out.append("unordered(");
        }
        let n = self.attributes.len();
        let mut i: usize = 0;
        while i < n
            invariant
                i <= n,
                n == self.attributes@.len(),
                names == attribute_names(self.attributes@),
                out@ == (if self.unordered {
                    "unordered("@
                } else {
                    Seq::<char>::empty()
                }) + join_with(names.take(i as int), ","@),
            decreases n - i,
        {
            if i > 0 {
                out.append(",");
            }
            out.append(self.attributes[i].0.as_str());
            proof {
                assert(names.take(i + 1) =~= names.take(i as int).push(names[i as int]));
                lemma_join_with_snoc(names.take(i as int), names[i as int], ","@);
                assert(names[i as int] == self.attributes@[i as int].0@);
                assert(out@ =~= (if self.unordered {
                    "unordered("@
                } else {
                    Seq::<char>::empty()
                }) + join_with(names.take(i + 1), ","@));
            }
            i += 1;
        }
        if self.unordered {
            out.append(")");
        }
        proof {
            assert(names.take(n as int) =~= names);
            assert(out@ =~= self.rendered());
        }
        out
    }
}

/// The searchable-attributes setting: an ordered list of priority tiers.
#[derive(Clone, Debug)]
pub struct SearchableAttributes(Vec<SearchableTier>);

impl SearchableAttributes {
    /// The strings the tiers serialize to, in priority order.
    pub closed spec fn spec_entries(&self) -> Seq<Seq<char>> {
        self.0@.map_values(|t: SearchableTier| t.rendered())
    }

    /// Starts building a searchable-attributes list.
    pub fn build() -> (r: SearchableAttributesBuilder)
        ensures
            r.spec_entries() == Seq::<Seq<char>>::empty(),
    {
        SearchableAttributesBuilder { attrs: Vec::new() }
    }

    /// Whether the list has no tiers at all.
    pub fn is_empty(&self) -> (r: bool)
        ensures
            r == (self.spec_entries().len() == 0),
    {
        self.0.is_empty()
    }

    /// The strings the tiers serialize to, in priority order.
    pub fn rendered_entries(&self) -> (r: Vec<String>)
        ensures
            r@.len() == self.spec_entries().len(),
            forall|i: int|
                0 <= i < r@.len() ==> #[trigger] r@[i]@ == self.spec_entries()[i],
    {
        let mut out: Vec<String> = Vec::new();
        let n = self.0.len();
        let mut i: usize = 0;
        while i < n
            invariant
                i <= n,
                n == self.0@.len(),
                out@.len() == i,
                forall|j: int|
                    0 <= j < i ==> #[trigger] out@[j]@ == self.spec_entries()[j],
            decreases n - i,
        {
            let rendered = self.0[i].render();
            out.push(rendered);
            i += 1;
        }
        out
    }
}

/// Builds a searchable-attributes list tier by tier.
#[derive(Clone, Debug)]
pub struct SearchableAttributesBuilder {
    attrs: Vec<SearchableTier>,
}

impl SearchableAttributesBuilder {
    /// The strings the tiers built so far serialize to.
    pub closed spec fn spec_entries(&self) -> Seq<Seq<char>> {
        self.attrs@.map_values(|t: SearchableTier| t.rendered())
    }

    /// Appends a tier of one attribute, ordered as given.
    pub fn single_with_order(self, attr: Attribute, ordered: bool) -> (r: Self)
        ensures
            r.spec_entries() == self.spec_entries().push(
                spec_tier_rendered(!ordered, seq![attr.0@]),
            ),
    {
        let mut attrs = self.attrs;
        let mut tier_attrs: Vec<Attribute> = Vec::new();
        tier_attrs.push(attr);
        let tier = SearchableTier { attributes: tier_attrs, unordered: !ordered };
        proof {
            assert(attribute_names(tier.attributes@) =~= seq![attr.0@]);
        }
        attrs.push(tier);
        let r = SearchableAttributesBuilder { attrs };
        proof {
            assert(r.spec_entries() =~= self.spec_entries().push(
                spec_tier_rendered(!ordered, seq![attr.0@]),
            ));
        }
        r
    }

    /// Appends a tier of one attribute, ordered.
    pub fn single(self, attr: Attribute) -> (r: Self)
        ensures
            r.spec_entries() == self.spec_entries().push(spec_tier_rendered(false, seq![attr.0@])),
    {
        self.single_with_order(attr, true)
    }

    /// Appends a tier of one attribute, unordered.
    pub fn single_unordered(self, attr: Attribute) -> (r: Self)
        ensures
            r.spec_entries() == self.spec_entries().push(spec_tier_rendered(true, seq![attr.0@])),
    {
        self.single_with_order(attr, false)
    }

    /// Appends a tier of several attributes sharing one priority, ordered as
    /// given.
    pub fn multi_with_order(self, attrs: Vec<Attribute>, ordered: bool) -> (r: Self)
        ensures
            r.spec_entries() == self.spec_entries().push(
                spec_tier_rendered(!ordered, attribute_names(attrs@)),
            ),
    {
        let mut tiers = self.attrs;
        let tier = SearchableTier { attributes: attrs, unordered: !ordered };
        tiers.push(tier);
        let r = SearchableAttributesBuilder { attrs: tiers };
        proof {
            assert(r.spec_entries() =~= self.spec_entries().push(tier.rendered()));
        }
        r
    }

    /// Appends a tier of several attributes, ordered.
    pub fn multi(self, attrs: Vec<Attribute>) -> (r: Self)
        ensures
            r.spec_entries() == self.spec_entries().push(
                spec_tier_rendered(false, attribute_names(attrs@)),
            ),
    {
        self.multi_with_order(attrs, true)
    }

    /// Appends a tier of several attributes, unordered.
    pub fn multi_unordered(self, attrs: Vec<Attribute>) -> (r: Self)
        ensures
            r.spec_entries() == self.spec_entries().push(
                spec_tier_rendered(true, attribute_names(attrs@)),
            ),
    {
        self.multi_with_order(attrs, false)
    }

    /// Finishes the list.
    pub fn finish(self) -> (r: SearchableAttributes)
        ensures
            r.spec_entries() == self.spec_entries(),
    {
        SearchableAttributes(self.attrs)
    }
}

/// How a faceting attribute is widened or restricted: by default a facet
/// supports both faceting and filtering; `FilterOnly` restricts it to
/// filtering, `Searchable` additionally allows searching facet values.
#[derive(Copy, Clone, Debug)]
pub enum FacetModifier {
    FilterOnly,
    Searchable,
}

impl FacetModifier {
    /// The modifier's name in the serialized form.
    pub open spec fn rendered(self) -> Seq<char> {
        match self {
            FacetModifier::FilterOnly => "filterOnly"@,
            FacetModifier::Searchable => "searchable"@,
        }
    }

    pub fn as_str(self) -> (r: &'static str)
        ensures
            r@ == self.rendered(),
    {
        match self {
            FacetModifier::FilterOnly => "filterOnly",
            FacetModifier::Searchable => "searchable",
        }
    }
}

/// One entry of the faceting-attributes setting.
#[derive(Clone, Debug)]
pub struct FacetAttribute {
    pub attribute: Attribute,
    pub modifier: Option<FacetModifier>,
}

/// The string a faceting attribute serializes to: the bare attribute name,
/// or `modifier(name)` when a modifier is set.
pub open spec fn spec_facet_attribute_rendered(name: Seq<char>, modifier: Option<
    FacetModifier,
>) -> Seq<char> {
    match modifier {
        Some(m) => m.rendered() + "("@ + name + ")"@,
        None => name,
    }
}

impl FacetAttribute {
    /// The string this entry serializes to.
    pub open spec fn rendered(&self) -> Seq<char> {
        spec_facet_attribute_rendered(self.attribute.0@, self.modifier)
    }

    /// A facet with the default behaviour (faceting and filtering).
    pub fn new(attribute: Attribute) -> (r: Self)
        ensures
            r.attribute == attribute,
            r.modifier is None,
    {
        FacetAttribute { attribute, modifier: None }
    }

    /// A facet with the given modifier, if any.
    pub fn with_modifier(attribute: Attribute, modifier: Option<FacetModifier>) -> (r: Self)
        ensures
            r.attribute == attribute,
            r.modifier == modifier,
    {
        FacetAttribute { attribute, modifier }
    }

    /// A facet restricted to filtering.
    pub fn filter_only(attribute: Attribute) -> (r: Self)
        ensures
            r.attribute == attribute,
            r.modifier == Some(FacetModifier::FilterOnly),
    {
        FacetAttribute { attribute, modifier: Some(FacetModifier::FilterOnly) }
    }

    /// A facet that additionally supports searching its values.
    pub fn searchable(attribute: Attribute) -> (r: Self)
        ensures
            r.attribute == attribute,
            r.modifier == Some(FacetModifier::Searchable),
    {
        FacetAttribute { attribute, modifier: Some(FacetModifier::Searchable) }
    }

    /// Builds the string this entry serializes to.
    pub fn render(&self) -> (r: String)
        ensures
            r@ == self.rendered(),
    {
        match self.modifier {
            Some(m) => {
                let mut out = String::from_str(m.as_str());
                out.append("(");
                out.append(self.attribute.0.as_str());
                out.append(")");
                proof {
                    assert(out@ =~= self.rendered());
                }
                out
            },
            None => {
                let out = String::from_str(self.attribute.0.as_str());
                out
            },
        }
    }
}

} // verus!
