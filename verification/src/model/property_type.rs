//! Property declarations and the extensions that decorate them.

use vstd::prelude::*;

use crate::sequences::{lemma_filter_empty, lemma_filter_take};

verus! {

/// The kind of value that a property holds.
#[derive(Clone, Copy, Debug, PartialEq, Eq, Structural)]
pub enum DataType {
    Null,
    Bool,
    Number,
    String,
    Array,
    Object,
    Any,
}

/// The direction in which a property is connected.
#[derive(Clone, Copy, Debug, PartialEq, Eq, Structural)]
pub enum SocketType {
    NoSocket,
    Input,
    Output,
}

/// Named metadata attached to a type or to a property.
///
/// The value is kept as JSON text; the registries never look into it.
#[derive(Debug, PartialEq, Eq)]
pub struct Extension {
    pub name: String,
    pub extension: String,
}

/// The mathematical value of an [`Extension`].
pub struct ExtensionView {
    pub name: Seq<char>,
    pub extension: Seq<char>,
}

impl View for Extension {
    type V = ExtensionView;

    open spec fn view(&self) -> ExtensionView {
        ExtensionView { name: self.name@, extension: self.extension@ }
    }
}

impl DeepView for Extension {
    type V = ExtensionView;

    open spec fn deep_view(&self) -> ExtensionView {
        self@
    }
}

impl Clone for Extension {
    fn clone(&self) -> (copy: Self)
        ensures
            copy@ == self@,
    {
        Extension { name: self.name.clone(), extension: self.extension.clone() }
    }
}

impl Extension {
    /// An extension called `name` that carries `extension`.
    pub fn new(name: String, extension: String) -> (made: Self)
        ensures
            made@ == (ExtensionView { name: name@, extension: extension@ }),
    {
        Extension { name, extension }
    }
}

/// The declaration of a property: its name, what it holds and how it is
/// connected. A declaration never carries a value.
#[derive(Debug, PartialEq, Eq)]
pub struct PropertyType {
    pub name: String,
    pub description: String,
    pub data_type: DataType,
    pub socket_type: SocketType,
    pub extensions: Vec<Extension>,
}

/// The mathematical value of a [`PropertyType`].
pub struct PropertyTypeView {
    pub name: Seq<char>,
    pub description: Seq<char>,
    pub data_type: DataType,
    pub socket_type: SocketType,
    pub extensions: Seq<ExtensionView>,
}

impl View for PropertyType {
    type V = PropertyTypeView;

    open spec fn view(&self) -> PropertyTypeView {
        PropertyTypeView {
            name: self.name@,
            description: self.description@,
            data_type: self.data_type,
            socket_type: self.socket_type,
            extensions: self.extensions.deep_view(),
        }
    }
}

impl DeepView for PropertyType {
    type V = PropertyTypeView;

    open spec fn deep_view(&self) -> PropertyTypeView {
        self@
    }
}

impl Clone for PropertyType {
    fn clone(&self) -> (copy: Self)
        ensures
            copy@ == self@,
    {
        PropertyType {
            name: self.name.clone(),
            description: self.description.clone(),
            data_type: self.data_type,
            socket_type: self.socket_type,
            extensions: clone_extensions(&self.extensions),
        }
    }
}

/// The extensions of `extensions` that are called `name`, in their order.
pub open spec fn extensions_named(extensions: Seq<ExtensionView>, name: Seq<char>) -> Seq<
    ExtensionView,
> {
    extensions.filter(|extension: ExtensionView| extension.name == name)
}

impl PropertyType {
    /// A declaration without description and without socket.
    pub fn new(name: String, data_type: DataType) -> (made: Self)
        ensures
            made@ == (PropertyTypeView {
                name: name@,
                description: Seq::<char>::empty(),
                data_type,
                socket_type: SocketType::NoSocket,
                extensions: Seq::<ExtensionView>::empty(),
            }),
    {
        let made = PropertyType {
            name,
            description: String::new(),
            data_type,
            socket_type: SocketType::NoSocket,
            extensions: Vec::new(),
        };
        assert(made.extensions.deep_view() =~= Seq::<ExtensionView>::empty());
        made
    }

    /// The extensions of this property: all of them where `name` is `None`,
    /// else those called `name`, in their order.
    pub fn extensions(&self, name: Option<String>) -> (found: Vec<Extension>)
        ensures
            found.deep_view() == match name {
                Some(wanted) => extensions_named(self@.extensions, wanted@),
                None => self@.extensions,
            },
    {
        match name {
            None => clone_extensions(&self.extensions),
            Some(wanted) => {
                let mut found: Vec<Extension> = Vec::new();
                let mut i: usize = 0;
                proof {
                    lemma_filter_empty(|extension: ExtensionView| extension.name == wanted@);
                    assert(self.extensions.deep_view().take(0) =~= Seq::<ExtensionView>::empty());
                    assert(found.deep_view() =~= Seq::<ExtensionView>::empty());
                }
                while i < self.extensions.len()
                    invariant
                        i <= self.extensions.len(),
                        found.deep_view() == extensions_named(
                            self.extensions.deep_view().take(i as int),
                            wanted@,
                        ),
                    decreases self.extensions.len() - i,
                {
                    proof {
                        lemma_filter_take(
                            self.extensions.deep_view(),
                            |extension: ExtensionView| extension.name == wanted@,
                            i as int,
                        );
                    }
                    let ghost before = found.deep_view();
                    if self.extensions[i].name == wanted {
                        found.push(self.extensions[i].clone());
                        assert(found.deep_view() == before.push(self.extensions[i as int]@));
                    }
                    i = i + 1;
                }
                assert(self.extensions.deep_view().take(i as int) == self.extensions.deep_view());
                found
            },
        }
    }
}

/// A copy of a list of names.
pub fn clone_names(names: &Vec<String>) -> (copy: Vec<String>)
    ensures
        copy.deep_view() == names.deep_view(),
{
    let mut copy: Vec<String> = Vec::new();
    let mut i: usize = 0;
    while i < names.len()
        invariant
            i <= names.len(),
            copy.deep_view() == names.deep_view().take(i as int),
        decreases names.len() - i,
    {
        let ghost before = copy.deep_view();
        copy.push(names[i].clone());
        assert(copy.deep_view() == before.push(names[i as int]@));
        i = i + 1;
    }
    assert(names.deep_view().take(i as int) == names.deep_view());
    copy
}

/// A copy of a list of extensions.
pub fn clone_extensions(extensions: &Vec<Extension>) -> (copy: Vec<Extension>)
    ensures
        copy.deep_view() == extensions.deep_view(),
{
    let mut copy: Vec<Extension> = Vec::new();
    let mut i: usize = 0;
    while i < extensions.len()
        invariant
            i <= extensions.len(),
            copy.deep_view() == extensions.deep_view().take(i as int),
        decreases extensions.len() - i,
    {
        let ghost before = copy.deep_view();
        copy.push(extensions[i].clone());
        assert(copy.deep_view() == before.push(extensions[i as int]@));
        i = i + 1;
    }
    assert(extensions.deep_view().take(i as int) == extensions.deep_view());
    copy
}

/// A copy of a list of property declarations.
pub fn clone_properties(properties: &Vec<PropertyType>) -> (copy: Vec<PropertyType>)
    ensures
        copy.deep_view() == properties.deep_view(),
{
    let mut copy: Vec<PropertyType> = Vec::new();
    let mut i: usize = 0;
    while i < properties.len()
        invariant
            i <= properties.len(),
            copy.deep_view() == properties.deep_view().take(i as int),
        decreases properties.len() - i,
    {
        let ghost before = copy.deep_view();
        copy.push(properties[i].clone());
        assert(copy.deep_view() == before.push(properties[i as int]@));
        i = i + 1;
    }
    assert(properties.deep_view().take(i as int) == properties.deep_view());
    copy
}

} // verus!
