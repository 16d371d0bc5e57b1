//! Fields of the iTunes namespace.

use vstd::prelude::*;
use crate::decoded::{option_map, option_view, Decoded};
use crate::node::{Node, NodeView};
use crate::text::{owned_text, same_text};

verus! {

/// The namespace of the iTunes fields.
pub const NAMESPACE: &'static str = "http://www.itunes.com/dtds/podcast-1.0.dtd";

/// The model of a podcast's artwork.
pub struct ImageView {
    pub href: Option<Seq<char>>,
}

/// The artwork of a podcast.
#[derive(Debug, PartialEq, Eq, Default)]
pub struct Image {
    pub href: Option<String>,
}

impl View for Image {
    type V = ImageView;

    open spec fn view(&self) -> ImageView {
        ImageView { href: option_view(self.href) }
    }
}

impl Image {
    /// What an image element decodes to: its attribute `href`.
    pub open spec fn decoded(n: NodeView) -> ImageView {
        ImageView { href: n.attribute("href"@) }
    }

    /// Decodes an image element.
    pub fn decode(n: &Node) -> (image: Image)
        ensures
            image@ == Image::decoded(n@),
    {
        Image { href: owned_text(n.attribute("href")) }
    }
}

/// The model of a podcast's owner.
pub struct OwnerView {
    pub email: Option<Seq<char>>,
    pub name: Option<Seq<char>>,
}

/// Whom to contact about a podcast.
#[derive(Debug, PartialEq, Eq, Default)]
pub struct Owner {
    pub email: Option<String>,
    pub name: Option<String>,
}

impl View for Owner {
    type V = OwnerView;

    open spec fn view(&self) -> OwnerView {
        OwnerView { email: option_view(self.email), name: option_view(self.name) }
    }
}

impl Owner {
    /// What an owner element decodes to: the texts of its children `email`
    /// and `name` of the iTunes namespace, each on its own.
    pub open spec fn decoded(n: NodeView) -> OwnerView {
        OwnerView {
            email: n.child_text(NAMESPACE@, "email"@),
            name: n.child_text(NAMESPACE@, "name"@),
        }
    }

    /// Decodes an owner element.
    pub fn decode(n: &Node) -> (owner: Owner)
        ensures
            owner@ == Owner::decoded(n@),
    {
        Owner {
            email: owned_text(n.child_text(NAMESPACE, "email")),
            name: owned_text(n.child_text(NAMESPACE, "name")),
        }
    }
}

/// The model of a category inside a category.
pub struct SubcategoryView {
    pub text: Option<Seq<char>>,
}

/// A category inside a category.
#[derive(Debug, PartialEq, Eq, Default)]
pub struct Subcategory {
    pub text: Option<String>,
}

impl View for Subcategory {
    type V = SubcategoryView;

    open spec fn view(&self) -> SubcategoryView {
        SubcategoryView { text: option_view(self.text) }
    }
}

impl Subcategory {
    /// What a nested category element decodes to: its attribute `text`.
    pub open spec fn decoded(n: NodeView) -> SubcategoryView {
        SubcategoryView { text: n.attribute("text"@) }
    }

    /// Decodes a nested category element.
    pub fn decode(n: &Node) -> (subcategory: Subcategory)
        ensures
            subcategory@ == Subcategory::decoded(n@),
    {
        Subcategory { text: owned_text(n.attribute("text")) }
    }
}

/// The model of a category.
pub struct CategoryView {
    pub text: Option<Seq<char>>,
    pub subcategory: Option<SubcategoryView>,
}

/// A category that a podcast is filed under, with at most one category
/// inside it.
#[derive(Debug, PartialEq, Eq, Default)]
pub struct Category {
    pub text: Option<String>,
    pub subcategory: Option<Subcategory>,
}

impl View for Category {
    type V = CategoryView;

    open spec fn view(&self) -> CategoryView {
        CategoryView { text: option_view(self.text), subcategory: option_view(self.subcategory) }
    }
}

impl Category {
    /// What a category element decodes to: its attribute `text`, and its
    /// first child `category` of the iTunes namespace.
    pub open spec fn decoded(n: NodeView) -> CategoryView {
        CategoryView {
            text: n.attribute("text"@),
            subcategory: option_map(
                n.child(NAMESPACE@, "category"@),
                |c: NodeView| Subcategory::decoded(c),
            ),
        }
    }

    /// Decodes a category element.
    pub fn decode(n: &Node) -> (category: Category)
        ensures
            category@ == Category::decoded(n@),
    {
        let subcategory = match n.child(NAMESPACE, "category") {
            Some(c) => Some(Subcategory::decode(c)),
            None => None,
        };
        Category { text: owned_text(n.attribute("text")), subcategory }
    }

    /// What a sequence of category elements decodes to, one by one, in order.
    pub open spec fn decoded_all(nodes: Seq<NodeView>) -> Seq<CategoryView> {
        nodes.map_values(|c: NodeView| Category::decoded(c))
    }

    /// Decodes category elements one by one, in order.
    pub fn decode_all(nodes: &Vec<&Node>) -> (categories: Vec<Category>)
        ensures
            categories@.map_values(|c: Category| c@) == Category::decoded_all(
                nodes@.map_values(|c: &Node| c@),
            ),
    {
        let mut categories: Vec<Category> = Vec::new();
        let mut i: usize = 0;
        while i < nodes.len()
            invariant
                i <= nodes.len(),
                categories@.len() == i,
                forall|j: int|
                    0 <= j < i ==> (#[trigger] categories@[j])@ == Category::decoded(nodes@[j]@),
            decreases nodes.len() - i,
        {
            categories.push(Category::decode(nodes[i]));
            i = i + 1;
        }
        assert(categories@.map_values(|c: Category| c@) =~= Category::decoded_all(
            nodes@.map_values(|c: &Node| c@),
        ));
        categories
    }
}

/// The word that a `Yes` field accepts.
pub open spec fn yes_word(s: Seq<char>) -> Option<()> {
    if s == "Yes"@ {
        Some(())
    } else {
        None
    }
}

/// A field that is either the word `Yes` or anything else.
#[derive(Debug, PartialEq, Eq)]
pub enum Yes {
    Yes,
    Other(String),
}

impl View for Yes {
    type V = Decoded<()>;

    open spec fn view(&self) -> Decoded<()> {
        match *self {
            Yes::Yes => Decoded::Valid(()),
            Yes::Other(s) => Decoded::Fallback(s@),
        }
    }
}

impl Yes {
    /// What the text `s` decodes to: `Yes` for the text `Yes`, letter for
    /// letter, and the text itself for any other.
    pub open spec fn decoded(s: Seq<char>) -> Decoded<()> {
        Decoded::of(yes_word(s), s)
    }

    /// Decodes the text of a `Yes` field.
    pub fn parse(s: &str) -> (field: Yes)
        ensures
            field@ == Yes::decoded(s@),
    {
        if same_text(s, "Yes") {
            Yes::Yes
        } else {
            Yes::Other(s.to_owned())
        }
    }
}

/// The model of a podcast type.
pub enum PodcastTypeView {
    Episodic,
    Serial,
    Other(Seq<char>),
}

/// How the episodes of a podcast are meant to be taken.
///
/// | text       | type       |
/// |------------|------------|
/// | `episodic` | `Episodic` |
/// | `serial`   | `Serial`   |
#[derive(Debug, PartialEq, Eq)]
pub enum PodcastType {
    Episodic,
    Serial,
    Other(String),
}

impl View for PodcastType {
    type V = PodcastTypeView;

    open spec fn view(&self) -> PodcastTypeView {
        match *self {
            PodcastType::Episodic => PodcastTypeView::Episodic,
            PodcastType::Serial => PodcastTypeView::Serial,
            PodcastType::Other(s) => PodcastTypeView::Other(s@),
        }
    }
}

impl PodcastType {
    /// The type that the text `s` decodes to: the one whose text it is,
    /// letter for letter, or `Other` with the text itself.
    pub open spec fn decoded(s: Seq<char>) -> PodcastTypeView {
        if s == "episodic"@ {
            PodcastTypeView::Episodic
        } else if s == "serial"@ {
            PodcastTypeView::Serial
        } else {
            PodcastTypeView::Other(s)
        }
    }

    /// The text that a podcast type is written as.
    pub open spec fn literal(v: PodcastTypeView) -> Seq<char> {
        match v {
            PodcastTypeView::Episodic => "episodic"@,
            PodcastTypeView::Serial => "serial"@,
            PodcastTypeView::Other(s) => s,
        }
    }

    /// Decodes the text of a podcast type.
    pub fn parse(s: &str) -> (kind: PodcastType)
        ensures
            kind@ == PodcastType::decoded(s@),
    {
        if same_text(s, "episodic") {
            PodcastType::Episodic
        } else if same_text(s, "serial") {
            PodcastType::Serial
        } else {
            PodcastType::Other(s.to_owned())
        }
    }

    /// Writes the podcast type as text.
    pub fn to_string(&self) -> (text: String)
        ensures
            text@ == PodcastType::literal(self@),
    {
        match self {
            PodcastType::Episodic => "episodic".to_owned(),
            PodcastType::Serial => "serial".to_owned(),
            PodcastType::Other(s) => s.clone(),
        }
    }

    /// Writing what a text decoded to gives the text back, whatever the text.
    pub proof fn lemma_literal_of_decoded(s: Seq<char>)
        ensures
            PodcastType::literal(PodcastType::decoded(s)) == s,
    {
    }

    /// Decoding what a named podcast type is written as gives the type back.
    pub proof fn lemma_decoded_of_literal(v: PodcastTypeView)
        requires
            !(v is Other),
        ensures
            PodcastType::decoded(PodcastType::literal(v)) == v,
    {
        reveal_strlit("episodic");
        reveal_strlit("serial");
        assert("episodic"@.len() != "serial"@.len());
    }
}

} // verus!
