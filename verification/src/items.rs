//! Items of the table: attributes by name.

use vstd::prelude::*;

verus! {

/// The value of an attribute: a text, a number as a numeral, bytes, or one of the kinds that no
/// record has.
#[derive(Debug, PartialEq, Eq)]
pub enum AttributeValue {
    S(String),
    N(String),
    B(Vec<u8>),
    Other,
}

pub enum AttributeView {
    S(Seq<char>),
    N(Seq<char>),
    B(Seq<u8>),
    Other,
}

impl View for AttributeValue {
    type V = AttributeView;

    open spec fn view(&self) -> AttributeView {
        match self {
            AttributeValue::S(text) => AttributeView::S(text@),
            AttributeValue::N(numeral) => AttributeView::N(numeral@),
            AttributeValue::B(contents) => AttributeView::B(contents@),
            AttributeValue::Other => AttributeView::Other,
        }
    }
}

/// An attribute with its name.
#[derive(Debug, PartialEq, Eq)]
pub struct Attribute {
    pub name: String,
    pub value: AttributeValue,
}

/// What an item is taken to be: a value for each of its names.
pub type ItemView = Map<Seq<char>, AttributeView>;

/// A collection of attributes. Where a name comes more than once, the last one counts.
#[derive(Debug, PartialEq, Eq)]
pub struct Item {
    pub attributes: Vec<Attribute>,
}

/// The values by name, of which the last one for a name counts.
pub open spec fn attribute_map(attributes: Seq<Attribute>) -> ItemView
    decreases attributes.len(),
{
    if attributes.len() == 0 {
        Map::empty()
    } else {
        attribute_map(attributes.drop_last()).insert(
            attributes.last().name@,
            attributes.last().value@,
        )
    }
}

impl View for Item {
    type V = ItemView;

    open spec fn view(&self) -> ItemView {
        attribute_map(self.attributes@)
    }
}

/// The views of the elements, in order.
pub open spec fn item_views(s: Seq<Item>) -> Seq<ItemView> {
    s.map_values(|item: Item| item@)
}

impl Item {
    /// An item without attributes.
    pub fn new() -> (item: Item)
        ensures
            item@ == Map::<Seq<char>, AttributeView>::empty(),
    {
        Item { attributes: Vec::new() }
    }

    /// Gives an attribute a value.
    pub fn insert(&mut self, name: &str, value: AttributeValue)
        ensures
            final(self)@ == old(self)@.insert(name@, value@),
    {
        let ghost before = self.attributes@;
        self.attributes.push(Attribute { name: name.to_owned(), value });
        assert(self.attributes@.drop_last() =~= before);
    }

    /// The value of an attribute, where the item has it.
    pub fn attribute(&self, name: &str) -> (value: Option<&AttributeValue>)
        ensures
            match value {
                Some(v) => self@.contains_key(name@) && self@[name@] == v@,
                None => !self@.contains_key(name@),
            },
    {
        let wanted = name.to_owned();
        let mut i: usize = self.attributes.len();
        assert(self.attributes@.take(i as int) =~= self.attributes@);
        while i > 0
            invariant
                i <= self.attributes@.len(),
                wanted@ == name@,
                ({
                    let rest = attribute_map(self.attributes@.take(i as int));
                    self@.contains_key(name@) == rest.contains_key(name@) && (rest.contains_key(name@)
                        ==> self@[name@] == rest[name@])
                }),
            decreases i,
        {
            let ghost rest = self.attributes@.take(i as int);
            i = i - 1;
            assert(rest.drop_last() =~= self.attributes@.take(i as int));
            assert(rest.last() == self.attributes@[i as int]);
            if self.attributes[i].name == wanted {
                return Some(&self.attributes[i].value);
            }
        }
        assert(self.attributes@.take(0) =~= Seq::<Attribute>::empty());
        None
    }
}

/// A placeholder of an expression and the attribute name that it stands for.
#[derive(Debug, PartialEq, Eq)]
pub struct NameBinding {
    pub placeholder: String,
    pub name: String,
}

/// The attribute names by the placeholders that stand for them in an expression.
#[derive(Debug, PartialEq, Eq)]
pub struct Names {
    pub bindings: Vec<NameBinding>,
}

/// The names by placeholder, of which the last one for a placeholder counts.
pub open spec fn name_map(bindings: Seq<NameBinding>) -> Map<Seq<char>, Seq<char>>
    decreases bindings.len(),
{
    if bindings.len() == 0 {
        Map::empty()
    } else {
        name_map(bindings.drop_last()).insert(bindings.last().placeholder@, bindings.last().name@)
    }
}

impl View for Names {
    type V = Map<Seq<char>, Seq<char>>;

    open spec fn view(&self) -> Map<Seq<char>, Seq<char>> {
        name_map(self.bindings@)
    }
}

impl Names {
    /// No names.
    pub fn new() -> (names: Names)
        ensures
            names@ == Map::<Seq<char>, Seq<char>>::empty(),
    {
        Names { bindings: Vec::new() }
    }

    /// Lets a placeholder stand for a name.
    pub fn bind(&mut self, placeholder: &str, name: &str)
        ensures
            final(self)@ == old(self)@.insert(placeholder@, name@),
    {
        let ghost before = self.bindings@;
        self.bindings.push(
            NameBinding { placeholder: placeholder.to_owned(), name: name.to_owned() },
        );
        assert(self.bindings@.drop_last() =~= before);
    }
}


/// An attribute is seen with its kind and all that it holds.
pub proof fn law_attribute_is_seen_whole(text: String, contents: Vec<u8>)
    ensures
        AttributeValue::S(text)@ == AttributeView::S(text@),
        AttributeValue::N(text)@ == AttributeView::N(text@),
        AttributeValue::B(contents)@ == AttributeView::B(contents@),
        AttributeValue::Other@ == AttributeView::Other,
{
}

/// An item has the attributes that stand in it and no others, each with the last value that is
/// given under its name.
pub proof fn law_item_has_the_last_of_each_name(item: Item, i: int)
    requires
        0 <= i < item.attributes@.len(),
        forall|j: int|
            i < j < item.attributes@.len() ==> (#[trigger] item.attributes@[j]).name@
                != item.attributes@[i].name@,
    ensures
        item@.contains_key(item.attributes@[i].name@),
        item@[item.attributes@[i].name@] == item.attributes@[i].value@,
{
    lemma_last_counts(item.attributes@, i);
}

/// An item has no attribute of a name that does not stand in it.
pub proof fn law_item_has_no_other_names(item: Item, name: Seq<char>)
    requires
        forall|j: int|
            0 <= j < item.attributes@.len() ==> (#[trigger] item.attributes@[j]).name@ != name,
    ensures
        !item@.contains_key(name),
{
    lemma_no_other_names(item.attributes@, name);
}

proof fn lemma_last_counts(attributes: Seq<Attribute>, i: int)
    requires
        0 <= i < attributes.len(),
        forall|j: int|
            i < j < attributes.len() ==> (#[trigger] attributes[j]).name@ != attributes[i].name@,
    ensures
        attribute_map(attributes).contains_key(attributes[i].name@),
        attribute_map(attributes)[attributes[i].name@] == attributes[i].value@,
    decreases attributes.len(),
{
    if i < attributes.len() - 1 {
        let before = attributes.drop_last();
        assert forall|j: int| i < j < before.len() implies (#[trigger] before[j]).name@
            != before[i].name@ by {
            assert(attributes[j].name@ != attributes[i].name@);
        }
        lemma_last_counts(before, i);
        assert(attributes[attributes.len() - 1].name@ != attributes[i].name@);
    }
}

proof fn lemma_no_other_names(attributes: Seq<Attribute>, name: Seq<char>)
    requires
        forall|j: int| 0 <= j < attributes.len() ==> (#[trigger] attributes[j]).name@ != name,
    ensures
        !attribute_map(attributes).contains_key(name),
    decreases attributes.len(),
{
    if attributes.len() > 0 {
        let before = attributes.drop_last();
        assert forall|j: int| 0 <= j < before.len() implies (#[trigger] before[j]).name@ != name by {
            assert(attributes[j].name@ != name);
        }
        assert(attributes[attributes.len() - 1].name@ != name);
        lemma_no_other_names(before, name);
    }
}

/// A placeholder stands for the last name that it is bound to.
pub proof fn law_last_binding_counts(names: Names)
    requires
        names.bindings@.len() > 0,
    ensures
        names@[names.bindings@.last().placeholder@] == names.bindings@.last().name@,
        forall|placeholder: Seq<char>|
            placeholder != names.bindings@.last().placeholder@ ==> {
                &&& #[trigger] names@.contains_key(placeholder) == name_map(
                    names.bindings@.drop_last(),
                ).contains_key(placeholder)
                &&& names@[placeholder] == name_map(names.bindings@.drop_last())[placeholder]
            },
{
}

/// Each of a row of items is seen.
pub proof fn law_items_are_seen_one_by_one(row: Seq<Item>)
    ensures
        item_views(row).len() == row.len(),
        forall|i: int| 0 <= i < row.len() ==> #[trigger] item_views(row)[i] == row[i]@,
{
}

} // verus!
