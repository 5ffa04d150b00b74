//! Reading a configuration document.
//!
//! The text is YAML and `yaml_rust` parses it. Of the parsed tree the sensor
//! map reads a fixed part: the sequence under `sensors`, and of each of its
//! elements the string under `id` and the sequence of strings under
//! `scripts`. [`Document`] holds that part as plain values, with `None`
//! wherever a node is missing or of another kind, so that validation can say
//! what is wrong with it.

use vstd::prelude::*;
use yaml_rust::ScanError;
use yaml_rust::Yaml;
use yaml_rust::YamlLoader;
use crate::error::ConfigMalformed;
use crate::text::text_of;
use crate::text::texts_of;

verus! {

/// `yaml_rust::Yaml`, a node of a parsed YAML tree. This library reads it
/// only through [`node_text`], [`node_items`] and [`node_member`].
#[verifier::external_type_specification]
#[verifier::external_body]
pub struct ExYaml(Yaml);

/// `yaml_rust::ScanError`, the loader's report on text that is no YAML.
#[verifier::external_type_specification]
#[verifier::external_body]
pub struct ExScanError(ScanError);

/// What a YAML node holds, as far as this library reads it.
pub enum YamlTree {
    /// A string, `Yaml::String`.
    Text(Seq<char>),
    /// A sequence, `Yaml::Array`, with its elements in order.
    List(Seq<YamlTree>),
    /// A mapping, `Yaml::Hash`: the values that stand under its string
    /// keys, by key.
    Table(Map<Seq<char>, YamlTree>),
    /// A node of any other kind: a number, a boolean, null, an alias, or
    /// the `Yaml::BadValue` that stands for a node that is not there.
    Other,
}

impl YamlTree {
    /// The string that the node is, if it is one.
    pub open spec fn text(self) -> Option<Seq<char>> {
        match self {
            YamlTree::Text(string) => Some(string),
            _ => None,
        }
    }

    /// The elements of the node, if it is a sequence.
    pub open spec fn items(self) -> Option<Seq<YamlTree>> {
        match self {
            YamlTree::List(items) => Some(items),
            _ => None,
        }
    }

    /// The node under the string key `key`. Where the node is no mapping,
    /// or has no such key, this is a node of no kind that is read.
    pub open spec fn member(self, key: Seq<char>) -> YamlTree {
        match self {
            YamlTree::Table(members) => if members.contains_key(key) {
                members[key]
            } else {
                YamlTree::Other
            },
            _ => YamlTree::Other,
        }
    }
}

/// What a `Yaml` node holds. [`node_text`], [`node_items`] and
/// [`node_member`] say how the node's own methods read it.
pub uninterp spec fn yaml_tree(node: Yaml) -> YamlTree;

/// What each of a sequence of `Yaml` nodes holds.
pub open spec fn yaml_trees(nodes: Seq<Yaml>) -> Seq<YamlTree> {
    nodes.map_values(|node: Yaml| yaml_tree(node))
}

/// The line and the column that a `ScanError` carries in its marker.
pub uninterp spec fn scan_error_position(error: ScanError) -> (usize, usize);

/// What `YamlLoader::load_from_str` makes of a text: what its documents
/// hold, in order, or the place at which the loader stops.
pub uninterp spec fn yaml_documents(text: Seq<char>) -> Result<Seq<YamlTree>, (usize, usize)>;

/// Calls `YamlLoader::load_from_str`, which returns the documents of the
/// text, or a `ScanError` where the text is no YAML. The contract claims
/// that the outcome depends on the text alone, and gives it the name
/// `yaml_documents`; it claims nothing about what the documents of a given
/// text hold. Stack and memory are no part of it: the loader calls itself
/// once for each level of nesting in the text, and for each alias it copies
/// the node that the anchor names.
#[verifier::external_body]
fn load_documents(text: &str) -> (loaded: Result<Vec<Yaml>, ScanError>)
    ensures
        yaml_documents(text@) == match loaded {
            Ok(documents) => Ok(yaml_trees(documents@)),
            Err(error) => Err(scan_error_position(error)),
        },
{
    YamlLoader::load_from_str(text)
}

/// Calls `ScanError::marker`, and `Marker::line` and `Marker::col` on the
/// marker: the place in the text at which the loader stopped. The three
/// return fields as they are. The contract gives the pair a name.
#[verifier::external_body]
fn error_position(error: &ScanError) -> (position: (usize, usize))
    ensures
        position == scan_error_position(*error),
{
    (error.marker().line(), error.marker().col())
}

/// Calls `Yaml::as_str`, which returns the string of a `Yaml::String` and
/// `None` for a node of any other kind. The contract claims the same of
/// what the node holds.
#[verifier::external_body]
fn node_text(node: &Yaml) -> (text: Option<&str>)
    ensures
        match text {
            Some(string) => yaml_tree(*node) == YamlTree::Text(string@),
            None => !(yaml_tree(*node) is Text),
        },
{
    node.as_str()
}

/// Calls `Yaml::as_vec`, which returns the elements of a `Yaml::Array` and
/// `None` for a node of any other kind. The contract claims the same of
/// what the node holds: a sequence of what the elements hold.
#[verifier::external_body]
fn node_items(node: &Yaml) -> (items: Option<&Vec<Yaml>>)
    ensures
        match items {
            Some(elements) => yaml_tree(*node) == YamlTree::List(yaml_trees(elements@)),
            None => !(yaml_tree(*node) is List),
        },
{
    node.as_vec()
}

/// Indexes a node by a string, `node[key]`. For a `Yaml::Hash` that has the
/// string as a key this is the value under it; for any other node, and for
/// a key that is not there, it is `Yaml::BadValue`, which is neither a
/// string nor a sequence nor a mapping. The index never panics. The
/// contract claims the same of what the two nodes hold.
#[verifier::external_body]
fn node_member<'a>(node: &'a Yaml, key: &str) -> (member: &'a Yaml)
    ensures
        yaml_tree(*member) == yaml_tree(*node).member(key@),
{
    &node[key]
}

/// One element of `sensors` as the document has it.
#[derive(Clone, Debug, PartialEq, Eq)]
pub struct EntryNode {
    /// The string under `id`; `None` where there is none.
    pub id: Option<String>,
    /// The elements of the sequence under `scripts`, each a string or
    /// `None`; `None` where there is no such sequence.
    pub scripts: Option<Vec<Option<String>>>,
}

/// The mathematical value of an [`EntryNode`].
pub struct EntryShape {
    pub id: Option<Seq<char>>,
    pub scripts: Option<Seq<Option<Seq<char>>>>,
}

impl View for EntryNode {
    type V = EntryShape;

    open spec fn view(&self) -> EntryShape {
        EntryShape {
            id: text_of(self.id),
            scripts: match self.scripts {
                Some(scripts) => Some(texts_of(scripts@)),
                None => None,
            },
        }
    }
}

/// The part of a configuration document that the sensor map reads.
#[derive(Clone, Debug, PartialEq, Eq)]
pub struct Document {
    /// The elements of the sequence under `sensors`; `None` where there is
    /// no such sequence.
    pub sensors: Option<Vec<EntryNode>>,
}

/// The mathematical value of a [`Document`].
pub struct DocumentShape {
    pub sensors: Option<Seq<EntryShape>>,
}

impl View for Document {
    type V = DocumentShape;

    open spec fn view(&self) -> DocumentShape {
        DocumentShape {
            sensors: match self.sensors {
                Some(sensors) => Some(sensors@.map_values(|entry: EntryNode| entry@)),
                None => None,
            },
        }
    }
}

/// What the sensor map reads of one element of `sensors`: the string under
/// `id`, and the elements of the sequence under `scripts`, each as the
/// string that it is or as `None`.
pub open spec fn entry_shape(node: YamlTree) -> EntryShape {
    EntryShape {
        id: node.member("id"@).text(),
        scripts: match node.member("scripts"@).items() {
            Some(items) => Some(items.map_values(|item: YamlTree| item.text())),
            None => None,
        },
    }
}

/// What the sensor map reads of a document: the elements of the sequence
/// under `sensors`.
pub open spec fn document_shape(node: YamlTree) -> DocumentShape {
    DocumentShape {
        sensors: match node.member("sensors"@).items() {
            Some(items) => Some(items.map_values(|item: YamlTree| entry_shape(item))),
            None => None,
        },
    }
}

/// What is read of a text that the loader has made `loaded` of: the shape
/// of the first document, or the reason why there is none.
pub open spec fn loaded_shape(loaded: Result<Seq<YamlTree>, (usize, usize)>) -> Result<
    DocumentShape,
    ConfigMalformed,
> {
    match loaded {
        Err(position) => Err(ConfigMalformed::Syntax { line: position.0, column: position.1 }),
        Ok(documents) => if documents.len() == 0 {
            Err(ConfigMalformed::NoDocument)
        } else {
            Ok(document_shape(documents[0]))
        },
    }
}

/// What parsing a text gives.
pub open spec fn parsed_shape(text: Seq<char>) -> Result<DocumentShape, ConfigMalformed> {
    loaded_shape(yaml_documents(text))
}

/// The view of the outcome of [`parse_document`].
pub open spec fn parse_outcome(outcome: Result<Document, ConfigMalformed>) -> Result<
    DocumentShape,
    ConfigMalformed,
> {
    match outcome {
        Ok(document) => Ok(document@),
        Err(defect) => Err(defect),
    }
}

/// Reads the elements of a `scripts` sequence: each string, and `None` for
/// each element of another kind.
fn read_scripts(items: &Vec<Yaml>) -> (scripts: Vec<Option<String>>)
    ensures
        texts_of(scripts@) == yaml_trees(items@).map_values(|item: YamlTree| item.text()),
{
    let mut scripts: Vec<Option<String>> = Vec::new();
    let mut index: usize = 0;
    while index < items.len()
        invariant
            index <= items.len(),
            scripts@.len() == index,
            forall|k: int|
                0 <= k < index ==> text_of(#[trigger] scripts@[k]) == yaml_tree(items@[k]).text(),
        decreases items.len() - index,
    {
        let script = match node_text(&items[index]) {
            Some(string) => Some(string.to_owned()),
            None => None,
        };
        scripts.push(script);
        index += 1;
    }
    scripts
}

/// Reads one element of `sensors`.
pub fn read_entry(node: &Yaml) -> (entry: EntryNode)
    ensures
        entry@ == entry_shape(yaml_tree(*node)),
{
    let id = match node_text(node_member(node, "id")) {
        Some(string) => Some(string.to_owned()),
        None => None,
    };
    let scripts = match node_items(node_member(node, "scripts")) {
        Some(items) => Some(read_scripts(items)),
        None => None,
    };
    EntryNode { id, scripts }
}

/// Reads from a parsed document the part that the sensor map is made of.
pub fn read_document(node: &Yaml) -> (document: Document)
    ensures
        document@ == document_shape(yaml_tree(*node)),
{
    match node_items(node_member(node, "sensors")) {
        None => Document { sensors: None },
        Some(items) => {
            let mut sensors: Vec<EntryNode> = Vec::new();
            let mut index: usize = 0;
            while index < items.len()
                invariant
                    index <= items.len(),
                    sensors@.len() == index,
                    forall|k: int|
                        0 <= k < index ==> (#[trigger] sensors@[k])@ == entry_shape(
                            yaml_tree(items@[k]),
                        ),
                decreases items.len() - index,
            {
                sensors.push(read_entry(&items[index]));
                index += 1;
            }
            assert(sensors@.map_values(|entry: EntryNode| entry@) =~= yaml_trees(
                items@,
            ).map_values(|item: YamlTree| entry_shape(item)));
            Document { sensors: Some(sensors) }
        },
    }
}

/// Parses a configuration text and reads its first document. A text that is
/// no YAML is refused with the place at which the loader stopped; a text
/// without a document is refused too.
pub fn parse_document(text: &str) -> (outcome: Result<Document, ConfigMalformed>)
    ensures
        parse_outcome(outcome) == parsed_shape(text@),
{
    match load_documents(text) {
        Err(error) => {
            let position = error_position(&error);
            Err(ConfigMalformed::Syntax { line: position.0, column: position.1 })
        },
        Ok(documents) => {
            if documents.len() == 0 {
                Err(ConfigMalformed::NoDocument)
            } else {
                Ok(read_document(&documents[0]))
            }
        },
    }
}

} // verus!
