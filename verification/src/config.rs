//! The sensor map: which scripts belong to which sensor, and where the
//! scripts are kept.
//!
//! A [`SensorConfig`] is made once, from a [`Document`] that has the
//! expected shape, and is never changed afterwards: every method takes it by
//! shared reference, so it can be handed to any number of request handlers.

use vstd::prelude::*;
use crate::document::Document;
use crate::document::DocumentShape;
use crate::document::EntryNode;
use crate::document::EntryShape;
use crate::document::parse_document;
use crate::document::parsed_shape;
use crate::error::ConfigMalformed;
use crate::text::text_of;
use crate::text::texts;

verus! {

/// A sensor and the scripts to run for it, in the order in which they run.
/// Several entries may have the same `id`, and `scripts` may be empty.
#[derive(Clone, Debug, PartialEq, Eq)]
pub struct SensorEntry {
    pub id: String,
    pub scripts: Vec<String>,
}

/// The mathematical value of a [`SensorEntry`].
pub struct EntryView {
    pub id: Seq<char>,
    pub scripts: Seq<Seq<char>>,
}

impl View for SensorEntry {
    type V = EntryView;

    open spec fn view(&self) -> EntryView {
        EntryView { id: self.id@, scripts: texts(self.scripts@) }
    }
}

/// The views of a sequence of entries.
pub open spec fn entry_views(entries: Seq<SensorEntry>) -> Seq<EntryView> {
    entries.map_values(|entry: SensorEntry| entry@)
}

/// The views of the entries that a sequence of references points to.
pub open spec fn found_views(found: Seq<&SensorEntry>) -> Seq<EntryView> {
    found.map_values(|entry: &SensorEntry| entry@)
}

/// The sensor map and the directory of the scripts.
#[derive(Clone, Debug, PartialEq, Eq)]
pub struct SensorConfig {
    scripts_directory: String,
    sensors: Vec<SensorEntry>,
}

/// The mathematical value of a [`SensorConfig`].
pub struct ConfigView {
    /// The path that is put before every script's name.
    pub scripts_directory: Seq<char>,
    /// The entries, in document order.
    pub sensors: Seq<EntryView>,
}

impl View for SensorConfig {
    type V = ConfigView;

    closed spec fn view(&self) -> ConfigView {
        ConfigView {
            scripts_directory: self.scripts_directory@,
            sensors: entry_views(self.sensors@),
        }
    }
}

/// Whether an element of `sensors` has a string `id` and a sequence of
/// strings as `scripts`.
pub open spec fn entry_well_shaped(entry: EntryShape) -> bool {
    &&& entry.id is Some
    &&& entry.scripts is Some
    &&& forall|j: int| 0 <= j < entry.scripts.unwrap().len() ==> entry.scripts.unwrap()[j] is Some
}

/// Whether a document has a sequence under `sensors` whose elements are all
/// well shaped.
pub open spec fn well_shaped(document: DocumentShape) -> bool {
    &&& document.sensors is Some
    &&& forall|i: int|
        0 <= i < document.sensors.unwrap().len() ==> entry_well_shaped(
            #[trigger] document.sensors.unwrap()[i],
        )
}

/// The entry that a well-shaped element of `sensors` stands for.
pub open spec fn entry_of(entry: EntryShape) -> EntryView
    recommends
        entry_well_shaped(entry),
{
    EntryView {
        id: entry.id.unwrap(),
        scripts: entry.scripts.unwrap().map_values(|script: Option<Seq<char>>| script.unwrap()),
    }
}

/// The configuration that a well-shaped document stands for: its entries,
/// one for one and in document order.
pub open spec fn config_of(scripts_directory: Seq<char>, document: DocumentShape) -> ConfigView
    recommends
        well_shaped(document),
{
    ConfigView {
        scripts_directory,
        sensors: document.sensors.unwrap().map_values(|entry: EntryShape| entry_of(entry)),
    }
}

/// Whether `defect` says what is wrong with the element `entry`, which
/// stands at `index`: its `id` if that is no string; else its `scripts` if
/// that is no sequence; else the first of its scripts that is no string.
pub open spec fn entry_refused(entry: EntryShape, index: usize, defect: ConfigMalformed) -> bool {
    if entry.id is None {
        defect == (ConfigMalformed::IdNotString { entry: index })
    } else if entry.scripts is None {
        defect == (ConfigMalformed::ScriptsNotSequence { entry: index })
    } else {
        exists|j: int|
            {
                &&& 0 <= j < entry.scripts.unwrap().len()
                &&& (#[trigger] entry.scripts.unwrap()[j]) is None
                &&& forall|k: int| 0 <= k < j ==> entry.scripts.unwrap()[k] is Some
                &&& defect == (ConfigMalformed::ScriptNotString { entry: index, script: j as usize })
            }
    }
}

/// Whether `defect` says why a document is refused: that `sensors` is no
/// sequence, or else what is wrong with the first of its elements that is
/// not well shaped.
pub open spec fn refused(document: DocumentShape, defect: ConfigMalformed) -> bool {
    if document.sensors is None {
        defect == ConfigMalformed::SensorsNotSequence
    } else {
        exists|i: int|
            {
                &&& 0 <= i < document.sensors.unwrap().len()
                &&& entry_refused(#[trigger] document.sensors.unwrap()[i], i as usize, defect)
                &&& forall|k: int|
                    0 <= k < i ==> entry_well_shaped(#[trigger] document.sensors.unwrap()[k])
            }
    }
}

/// Whether `outcome` is what validating `document` gives: the configuration
/// that the document stands for where it is well shaped, and otherwise the
/// reason why it is refused.
pub open spec fn validates(
    scripts_directory: Seq<char>,
    document: DocumentShape,
    outcome: Result<SensorConfig, ConfigMalformed>,
) -> bool {
    match outcome {
        Ok(config) => well_shaped(document) && config@ == config_of(scripts_directory, document),
        Err(defect) => !well_shaped(document) && refused(document, defect),
    }
}

/// What [`SensorConfig::lookup`] finds: the entries whose `id` is `id`, in
/// document order.
pub open spec fn matching(sensors: Seq<EntryView>, id: Seq<char>) -> Seq<EntryView> {
    sensors.filter(|entry: EntryView| entry.id == id)
}

/// The path of a script: the directory, one separator, and the script's
/// name as it is configured. Nothing is normalised.
pub open spec fn script_path(scripts_directory: Seq<char>, script: Seq<char>) -> Seq<char> {
    scripts_directory + "/"@ + script
}

/// A document is refused for one reason only: whatever says why it is
/// refused names the same defect.
pub proof fn refusal_is_unique(document: DocumentShape, one: ConfigMalformed, other: ConfigMalformed)
    requires
        refused(document, one),
        refused(document, other),
    ensures
        one == other,
{
}

impl SensorEntry {
    /// Validates the element of `sensors` that stands at `index`.
    pub fn from_node(node: &EntryNode, index: usize) -> (outcome: Result<
        SensorEntry,
        ConfigMalformed,
    >)
        ensures
            outcome is Ok <==> entry_well_shaped(node@),
            outcome matches Ok(entry) ==> entry@ == entry_of(node@),
            outcome matches Err(defect) ==> entry_refused(node@, index, defect),
    {
        let id = match &node.id {
            Some(id) => id.clone(),
            None => {
                return Err(ConfigMalformed::IdNotString { entry: index });
            },
        };
        let nodes = match &node.scripts {
            Some(nodes) => nodes,
            None => {
                return Err(ConfigMalformed::ScriptsNotSequence { entry: index });
            },
        };
        let ghost shapes = node@.scripts.unwrap();
        let mut scripts: Vec<String> = Vec::new();
        let mut position: usize = 0;
        while position < nodes.len()
            invariant
                position <= nodes.len(),
                node@.id == Some(id@),
                node@.scripts == Some(shapes),
                shapes.len() == nodes.len(),
                forall|k: int| 0 <= k < nodes.len() ==> #[trigger] shapes[k] == text_of(nodes@[k]),
                scripts@.len() == position,
                forall|k: int| 0 <= k < position ==> (#[trigger] shapes[k]) is Some,
                forall|k: int| 0 <= k < position ==> (#[trigger] scripts@[k])@ == shapes[k].unwrap(),
            decreases nodes.len() - position,
        {
            match &nodes[position] {
                Some(script) => scripts.push(script.clone()),
                None => {
                    assert(shapes[position as int] is None);
                    return Err(ConfigMalformed::ScriptNotString { entry: index, script: position });
                },
            }
            position += 1;
        }
        let entry = SensorEntry { id, scripts };
        assert(entry@.scripts =~= entry_of(node@).scripts);
        Ok(entry)
    }
}

impl SensorConfig {
    /// A configuration with the given directory and entries.
    pub fn new(scripts_directory: String, sensors: Vec<SensorEntry>) -> (config: SensorConfig)
        ensures
            config@.scripts_directory == scripts_directory@,
            config@.sensors == entry_views(sensors@),
    {
        SensorConfig { scripts_directory, sensors }
    }

    /// Validates a document and makes the configuration that it stands for.
    /// A document that is not well shaped is refused, and the error names
    /// the first thing that is wrong with it.
    pub fn from_document(scripts_directory: String, document: &Document) -> (outcome: Result<
        SensorConfig,
        ConfigMalformed,
    >)
        ensures
            validates(scripts_directory@, document@, outcome),
    {
        let nodes = match &document.sensors {
            Some(nodes) => nodes,
            None => {
                return Err(ConfigMalformed::SensorsNotSequence);
            },
        };
        let ghost shapes = document@.sensors.unwrap();
        let mut sensors: Vec<SensorEntry> = Vec::new();
        let mut index: usize = 0;
        while index < nodes.len()
            invariant
                index <= nodes.len(),
                shapes.len() == nodes.len(),
                document@.sensors == Some(shapes),
                forall|k: int| 0 <= k < nodes.len() ==> #[trigger] shapes[k] == nodes@[k]@,
                sensors@.len() == index,
                forall|k: int| 0 <= k < index ==> entry_well_shaped(#[trigger] shapes[k]),
                forall|k: int| 0 <= k < index ==> (#[trigger] sensors@[k])@ == entry_of(shapes[k]),
            decreases nodes.len() - index,
        {
            match SensorEntry::from_node(&nodes[index], index) {
                Ok(entry) => sensors.push(entry),
                Err(defect) => {
                    assert(entry_refused(
                        document@.sensors.unwrap()[index as int],
                        index as int as usize,
                        defect,
                    ));
                    return Err(defect);
                },
            }
            index += 1;
        }
        let config = SensorConfig { scripts_directory, sensors };
        assert(config@.sensors =~= config_of(scripts_directory@, document@).sensors);
        Ok(config)
    }

    /// Parses a configuration text and makes the configuration that its
    /// first document stands for.
    pub fn load(scripts_directory: String, text: &str) -> (outcome: Result<
        SensorConfig,
        ConfigMalformed,
    >)
        ensures
            match parsed_shape(text@) {
                Ok(document) => validates(scripts_directory@, document, outcome),
                Err(defect) => outcome == Err::<SensorConfig, ConfigMalformed>(defect),
            },
    {
        match parse_document(text) {
            Ok(document) => SensorConfig::from_document(scripts_directory, &document),
            Err(defect) => Err(defect),
        }
    }

    /// The directory of the scripts.
    pub fn scripts_directory(&self) -> (directory: &str)
        ensures
            directory@ == self@.scripts_directory,
    {
        self.scripts_directory.as_str()
    }

    /// The entries, in document order.
    pub fn sensors(&self) -> (sensors: &Vec<SensorEntry>)
        ensures
            entry_views(sensors@) == self@.sensors,
    {
        &self.sensors
    }

    /// Every entry whose `id` is `id`, in document order. No entry is an
    /// ordinary outcome: the result is then empty.
    pub fn lookup<'a>(&'a self, id: &str) -> (found: Vec<&'a SensorEntry>)
        ensures
            found_views(found@) == matching(self@.sensors, id@),
    {
        let wanted = id.to_owned();
        let ghost same = |entry: EntryView| entry.id == id@;
        let mut found: Vec<&'a SensorEntry> = Vec::new();
        let mut index: usize = 0;
        proof {
            reveal(Seq::filter);
        }
        while index < self.sensors.len()
            invariant
                index <= self.sensors.len(),
                wanted@ == id@,
                same == |entry: EntryView| entry.id == id@,
                found_views(found@) == self@.sensors.take(index as int).filter(same),
            decreases self.sensors.len() - index,
        {
            let entry = &self.sensors[index];
            proof {
                self@.sensors.lemma_take_succ_push(index as int);
                self@.sensors.take(index as int).lemma_filter_push(self@.sensors[index as int], same);
            }
            if entry.id == wanted {
                found.push(entry);
            }
            index += 1;
        }
        proof {
            assert(self@.sensors.take(index as int) =~= self@.sensors);
        }
        found
    }

    /// The path under which the script `script` is run.
    pub fn resolve(&self, script: &str) -> (path: String)
        ensures
            path@ == script_path(self@.scripts_directory, script@),
    {
        self.scripts_directory.clone().concat("/").concat(script)
    }
}

} // verus!
