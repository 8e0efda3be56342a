//! The object graph that the renderer is handed.
//!
//! The graph is a tree of mappings, sequences and text. [`Node`] is that
//! tree as a mathematical value, free of any renderer; the values that hold
//! it at run time are the renderer's own, `liquid::Object` and
//! `liquid::model::Value`.

use vstd::prelude::*;

use crate::environment::{Environment, File, FileView};

verus! {

/// A node of the object graph.
pub enum Node {
    /// A scalar that holds text.
    Text(Seq<char>),
    /// An ordered sequence of nodes.
    List(Seq<Node>),
    /// A mapping from keys to nodes.
    Mapping(Map<Seq<char>, Node>),
}

/// The renderer's mapping from keys to values, `liquid::Object`.
#[verifier::external_type_specification]
#[verifier::external_body]
pub struct ExObject(liquid::Object);

/// The renderer's value, `liquid::model::Value`.
#[verifier::external_type_specification]
#[verifier::external_body]
pub struct ExValue(liquid::model::Value);

/// What a `liquid::Object` holds: the node that each of its keys is bound to.
pub uninterp spec fn object_nodes(object: liquid::Object) -> Map<Seq<char>, Node>;

/// What a `liquid::model::Value` holds, as a node.
pub uninterp spec fn value_node(value: liquid::model::Value) -> Node;

/// `liquid::Object::new` makes a mapping that binds no key.
pub assume_specification[ liquid::Object::new ]() -> (object: liquid::Object)
    ensures
        object_nodes(object) == (Map::<Seq<char>, Node>::empty()),
;

/// `liquid::Object::insert` binds the key to the value, in place of what the
/// key was bound to before, and leaves every other key as it was. The key
/// goes in as liquid's key type, a `kstring::KString` of the same text.
#[verifier::external_body]
fn bind(object: &mut liquid::Object, key: &str, value: liquid::model::Value)
    ensures
        object_nodes(*final(object)) == object_nodes(*old(object)).insert(key@, value_node(value)),
{
    object.insert(kstring::KString::from_ref(key), value);
}

/// `liquid::model::Value::scalar` on a string makes a scalar that holds the
/// string's text.
#[verifier::external_body]
fn text_value(text: &str) -> (value: liquid::model::Value)
    ensures
        value_node(value) == Node::Text(text@),
{
    liquid::model::Value::scalar(text.to_owned())
}

/// `liquid::model::Value::Array` holds the values it is given, in their
/// order.
#[verifier::external_body]
fn list_value(items: Vec<liquid::model::Value>) -> (value: liquid::model::Value)
    ensures
        value_node(value) == Node::List(
            items@.map_values(|item: liquid::model::Value| value_node(item)),
        ),
{
    liquid::model::Value::Array(items)
}

/// `liquid::model::Value::Object` holds the mapping it is given.
#[verifier::external_body]
fn object_value(object: liquid::Object) -> (value: liquid::model::Value)
    ensures
        value_node(value) == Node::Mapping(object_nodes(object)),
{
    liquid::model::Value::Object(object)
}

/// The mapping that stands for one file: its name, its path and its contents,
/// each as text under its key.
pub open spec fn file_object(file: FileView) -> Map<Seq<char>, Node> {
    map![
        "name"@ => Node::Text(file.name),
        "path"@ => Node::Text(file.path),
        "contents"@ => Node::Text(file.contents),
    ]
}

/// The root mapping: the one key `files`, bound to the sequence of the files'
/// mappings, in the order of the files.
pub open spec fn environment_object(files: Seq<FileView>) -> Map<Seq<char>, Node> {
    map![
        "files"@ => Node::List(files.map_values(|file: FileView| Node::Mapping(file_object(file)))),
    ]
}

impl File {
    /// The mapping that stands for the file in the object graph.
    pub fn to_object(&self) -> (object: liquid::Object)
        ensures
            object_nodes(object) == file_object(self@),
    {
        let mut object = liquid::Object::new();
        bind(&mut object, "name", text_value(self.name.as_str()));
        bind(&mut object, "path", text_value(self.path.as_str()));
        bind(&mut object, "contents", text_value(self.contents.as_str()));
        object
    }
}

impl Environment {
    /// The object graph of the environment: what the renderer is handed as
    /// the template's globals.
    pub fn to_object(&self) -> (object: liquid::Object)
        ensures
            object_nodes(object) == environment_object(self@),
    {
        let mut items: Vec<liquid::model::Value> = Vec::new();
        let mut index: usize = 0;
        while index < self.files.len()
            invariant
                index <= self.files.len(),
                items@.map_values(|item: liquid::model::Value| value_node(item)) == self@.take(
                    index as int,
                ).map_values(|file: FileView| Node::Mapping(file_object(file))),
            decreases self.files.len() - index,
        {
            let ghost before = items@.map_values(|item: liquid::model::Value| value_node(item));
            let item = object_value(self.files[index].to_object());
            items.push(item);
            assert(items@.map_values(|item: liquid::model::Value| value_node(item)) =~= before.push(
                value_node(item),
            ));
            assert(self@.take(index + 1).map_values(
                |file: FileView| Node::Mapping(file_object(file)),
            ) =~= before.push(Node::Mapping(file_object(self@[index as int]))));
            index = index + 1;
        }
        assert(self@.take(index as int) =~= self@);
        let mut object = liquid::Object::new();
        bind(&mut object, "files", list_value(items));
        object
    }
}

} // verus!
