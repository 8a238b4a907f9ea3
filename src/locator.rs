//! Finding the file that holds the CPU die temperature among the entries of
//! the hardware-monitoring tree.

use vstd::prelude::*;
use vstd::string::StringExecFns;
use crate::pattern::{Pattern, regex_compiles, regex_is_match};
use crate::text::{decimal, decimal_text, replace_all, replace_text, trim_text, trimmed};

verus! {

/// A file of a hardware-monitoring entry, as read from the tree.
pub struct SensorFile {
    /// The full path of the file.
    pub path: String,
    /// The file's text, or `None` where it could not be read.
    pub content: Option<String>,
}

/// One entry (one directory) of the hardware-monitoring tree.
pub struct HwmonEntry {
    /// The text of the entry's `name` file, or `None` where it could not be read.
    pub name: Option<String>,
    /// The files directly under the entry, in the order the tree listed them.
    pub files: Vec<SensorFile>,
}

/// Which file names a driver rule looks for.
#[derive(Clone, Copy, Debug, PartialEq, Eq, Structural)]
pub enum FileRule {
    /// `temp<N>_label`, for any digit sequence `<N>`.
    TempLabel,
    /// `temp1_input`.
    Temp1Input,
}

/// What the matched file's text must contain.
#[derive(Clone, Copy, Debug, PartialEq, Eq, Structural)]
pub enum LabelRule {
    /// `Core` and the requested core id, any white space between, in any case.
    CoreId,
    /// `Tdie`, in any case.
    Tdie,
    /// Nothing: the matched file is the sensor itself.
    Direct,
}

/// One known driver's convention for naming its temperature files.
pub struct Descriptor {
    pub driver: &'static str,
    pub file_rule: FileRule,
    pub label_rule: LabelRule,
}

impl Descriptor {
    pub open spec fn view(&self) -> (Seq<char>, FileRule, LabelRule) {
        (self.driver@, self.file_rule, self.label_rule)
    }
}

/// The known drivers' rules, in the order in which they are tried.
pub open spec fn driver_table() -> Seq<(Seq<char>, FileRule, LabelRule)> {
    seq![
        ("coretemp"@, FileRule::TempLabel, LabelRule::CoreId),
        ("k8temp"@, FileRule::TempLabel, LabelRule::CoreId),
        ("k10temp"@, FileRule::TempLabel, LabelRule::Tdie),
        ("k10temp"@, FileRule::Temp1Input, LabelRule::Direct),
        ("zenpower"@, FileRule::Temp1Input, LabelRule::Direct),
    ]
}

/// The rules of the known drivers, in priority order.
pub fn drivers() -> (r: Vec<Descriptor>)
    ensures
        r@.len() == driver_table().len(),
        forall|i: int| 0 <= i < r@.len() ==> (#[trigger] r@[i]).view() == driver_table()[i],
{
    let r = vec![
        Descriptor { driver: "coretemp", file_rule: FileRule::TempLabel, label_rule: LabelRule::CoreId },
        Descriptor { driver: "k8temp", file_rule: FileRule::TempLabel, label_rule: LabelRule::CoreId },
        Descriptor { driver: "k10temp", file_rule: FileRule::TempLabel, label_rule: LabelRule::Tdie },
        Descriptor { driver: "k10temp", file_rule: FileRule::Temp1Input, label_rule: LabelRule::Direct },
        Descriptor { driver: "zenpower", file_rule: FileRule::Temp1Input, label_rule: LabelRule::Direct },
    ];
    r
}

/// The regular expression for a file rule.
pub open spec fn file_pattern_text(f: FileRule) -> Seq<char> {
    match f {
        FileRule::TempLabel => "temp\\d+_label"@,
        FileRule::Temp1Input => "temp1_input"@,
    }
}

/// The regular expression for the label of `core_id`.
pub open spec fn core_pattern_text(core_id: u16) -> Seq<char> {
    "(?i)Core\\s*"@ + decimal(core_id as nat)
}

/// The regular expression for `Tdie` labels.
pub open spec fn tdie_pattern_text() -> Seq<char> {
    "(?i)Tdie"@
}

/// The regular expression a label rule asks of the label's text, if any.
pub open spec fn label_pattern_text(l: LabelRule, core_id: u16) -> Option<Seq<char>> {
    match l {
        LabelRule::CoreId => Some(core_pattern_text(core_id)),
        LabelRule::Tdie => Some(tdie_pattern_text()),
        LabelRule::Direct => None,
    }
}

/// The text of a file, empty where it could not be read.
pub open spec fn content_of(f: SensorFile) -> Seq<char> {
    match f.content {
        Some(c) => c@,
        None => Seq::empty(),
    }
}

/// The driver name of an entry: its `name` file trimmed, empty where unreadable.
pub open spec fn driver_of(e: HwmonEntry) -> Seq<char> {
    match e.name {
        Some(n) => trimmed(n@),
        None => trimmed(Seq::empty()),
    }
}

/// The text of an optional string.
pub open spec fn text_of(o: Option<String>) -> Option<Seq<char>> {
    match o {
        Some(s) => Some(s@),
        None => None,
    }
}

/// The sensor path named by a file at `path`, given whether the rule's file
/// pattern matched the path and, for a rule with a label pattern, whether it
/// matched the file's text: a direct match names the file itself, a label
/// match the `_input` sibling of the label file.
pub open spec fn path_decision(path: Seq<char>, file_matches: bool, label_matches: Option<bool>) -> Option<Seq<char>> {
    if !file_matches {
        None
    } else {
        match label_matches {
            None => Some(path),
            Some(true) => Some(replace_all(path, "_label"@, "_input"@)),
            Some(false) => None,
        }
    }
}

/// What rule `d` makes of file `f`: the sensor path it names, if any. The
/// file rule's pattern is tested against the full path; a label rule then
/// tests the file's text.
pub open spec fn file_candidate(
    core_id: u16,
    d: (Seq<char>, FileRule, LabelRule),
    f: SensorFile,
) -> Option<Seq<char>> {
    path_decision(
        f.path@,
        regex_is_match(file_pattern_text(d.1), f.path@),
        match label_pattern_text(d.2, core_id) {
            None => None,
            Some(lp) => Some(regex_is_match(lp, content_of(f))),
        },
    )
}

/// The sensor path named by the file at `path`, given the outcome of the
/// rule's pattern tests (see `path_decision`).
pub fn sensor_path_for(path: &str, file_matches: bool, label_matches: Option<bool>) -> (r: Option<String>)
    ensures
        text_of(r) == path_decision(path@, file_matches, label_matches),
{
    if !file_matches {
        return None;
    }
    match label_matches {
        None => Some(path.to_owned()),
        Some(true) => {
            proof {
                reveal_strlit("_label");
            }
            Some(replace_text(path, "_label", "_input"))
        },
        Some(false) => None,
    }
}

/// The first sensor path that rule `d` finds among `files[i..]`.
pub open spec fn first_in_files(
    core_id: u16,
    d: (Seq<char>, FileRule, LabelRule),
    files: Seq<SensorFile>,
    i: int,
) -> Option<Seq<char>>
    decreases files.len() - i,
{
    if i < 0 || i >= files.len() {
        None
    } else {
        match file_candidate(core_id, d, files[i]) {
            Some(p) => Some(p),
            None => first_in_files(core_id, d, files, i + 1),
        }
    }
}

/// The first sensor path that the rules from index `k` on, those of driver
/// `name`, find among `files`.
pub open spec fn first_in_rules(
    core_id: u16,
    name: Seq<char>,
    files: Seq<SensorFile>,
    k: int,
) -> Option<Seq<char>>
    decreases driver_table().len() - k,
{
    if k < 0 || k >= driver_table().len() {
        None
    } else if driver_table()[k].0 != name {
        first_in_rules(core_id, name, files, k + 1)
    } else {
        match first_in_files(core_id, driver_table()[k], files, 0) {
            Some(p) => Some(p),
            None => first_in_rules(core_id, name, files, k + 1),
        }
    }
}

/// The sensor path that entry `e` yields, if any.
pub open spec fn entry_candidate(core_id: u16, e: HwmonEntry) -> Option<Seq<char>> {
    first_in_rules(core_id, driver_of(e), e.files@, 0)
}

/// The first sensor path yielded by the entries `tree[i..]`.
pub open spec fn first_in_tree(core_id: u16, tree: Seq<HwmonEntry>, i: int) -> Option<Seq<char>>
    decreases tree.len() - i,
{
    if i < 0 || i >= tree.len() {
        None
    } else {
        match entry_candidate(core_id, tree[i]) {
            Some(p) => Some(p),
            None => first_in_tree(core_id, tree, i + 1),
        }
    }
}

/// The sensor path that discovery finds for `core_id` in `tree`, if any.
pub open spec fn located(core_id: u16, tree: Seq<HwmonEntry>) -> Option<Seq<char>> {
    first_in_tree(core_id, tree, 0)
}

/// Whether every pattern that discovery for `core_id` uses compiles.
pub open spec fn rules_compile(core_id: u16) -> bool {
    &&& regex_compiles(file_pattern_text(FileRule::TempLabel))
    &&& regex_compiles(file_pattern_text(FileRule::Temp1Input))
    &&& regex_compiles(tdie_pattern_text())
    &&& regex_compiles(core_pattern_text(core_id))
}

/// Whether `name` is the driver of some rule of the table.
pub open spec fn is_known_driver(name: Seq<char>) -> bool {
    exists|k: int| 0 <= k < driver_table().len() && (#[trigger] driver_table()[k]).0 == name
}

proof fn lemma_unknown_driver_rules(core_id: u16, name: Seq<char>, files: Seq<SensorFile>, k: int)
    requires
        !is_known_driver(name),
    ensures
        first_in_rules(core_id, name, files, k) is None,
    decreases driver_table().len() - k,
{
    if 0 <= k < driver_table().len() {
        lemma_unknown_driver_rules(core_id, name, files, k + 1);
    }
}

proof fn lemma_unknown_drivers_from(core_id: u16, tree: Seq<HwmonEntry>, i: int)
    requires
        forall|j: int| 0 <= j < tree.len() ==> !is_known_driver(driver_of(#[trigger] tree[j])),
    ensures
        first_in_tree(core_id, tree, i) is None,
    decreases tree.len() - i,
{
    if 0 <= i < tree.len() {
        lemma_unknown_driver_rules(core_id, driver_of(tree[i]), tree[i].files@, 0);
        lemma_unknown_drivers_from(core_id, tree, i + 1);
    }
}

/// Discovery finds nothing in a tree none of whose entries belongs to a
/// known driver; in particular, nothing in an empty tree.
pub proof fn lemma_unknown_drivers_not_found(core_id: u16, tree: Seq<HwmonEntry>)
    requires
        forall|j: int| 0 <= j < tree.len() ==> !is_known_driver(driver_of(#[trigger] tree[j])),
    ensures
        located(core_id, tree) is None,
{
    lemma_unknown_drivers_from(core_id, tree, 0);
}

/// The compiled patterns that discovery for one core id uses.
pub struct SensorRules {
    core_id: u16,
    temp_label: Pattern,
    temp1_input: Pattern,
    tdie: Pattern,
    core_n: Pattern,
}

impl SensorRules {
    #[verifier::type_invariant]
    spec fn compiled_from_texts(self) -> bool {
        &&& self.temp_label.source() == file_pattern_text(FileRule::TempLabel)
        &&& self.temp1_input.source() == file_pattern_text(FileRule::Temp1Input)
        &&& self.tdie.source() == tdie_pattern_text()
        &&& self.core_n.source() == core_pattern_text(self.core_id)
    }

    /// The core whose temperature these rules look for.
    pub closed spec fn core_index(self) -> u16 {
        self.core_id
    }

    /// Compiles the patterns for `core_id`; `None` where one does not compile.
    pub fn new(core_id: u16) -> (r: Option<SensorRules>)
        ensures
            r is Some <==> rules_compile(core_id),
            r is Some ==> r->Some_0.core_index() == core_id,
    {
        let core_text = String::from_str("(?i)Core\\s*").concat(decimal_text(core_id).as_str());
        let core_n = match Pattern::compile(core_text.as_str()) {
            Ok(p) => p,
            Err(_) => return None,
        };
        let temp_label = match Pattern::compile("temp\\d+_label") {
            Ok(p) => p,
            Err(_) => return None,
        };
        let temp1_input = match Pattern::compile("temp1_input") {
            Ok(p) => p,
            Err(_) => return None,
        };
        let tdie = match Pattern::compile("(?i)Tdie") {
            Ok(p) => p,
            Err(_) => return None,
        };
        Some(SensorRules { core_id, temp_label, temp1_input, tdie, core_n })
    }

    fn file_pattern(&self, f: FileRule) -> (r: &Pattern)
        ensures
            r.source() == file_pattern_text(f),
    {
        proof {
            use_type_invariant(self);
        }
        match f {
            FileRule::TempLabel => &self.temp_label,
            FileRule::Temp1Input => &self.temp1_input,
        }
    }

    fn label_pattern(&self, l: LabelRule) -> (r: Option<&Pattern>)
        ensures
            label_pattern_text(l, self.core_index()) == match r {
                Some(p) => Some(p.source()),
                None => None::<Seq<char>>,
            },
    {
        proof {
            use_type_invariant(self);
        }
        match l {
            LabelRule::CoreId => Some(&self.core_n),
            LabelRule::Tdie => Some(&self.tdie),
            LabelRule::Direct => None,
        }
    }

    /// The sensor path that rule `d` makes of file `f`, if any.
    pub fn match_file(&self, d: &Descriptor, f: &SensorFile) -> (r: Option<String>)
        ensures
            text_of(r) == file_candidate(self.core_index(), d.view(), *f),
    {
        let file_matches = self.file_pattern(d.file_rule).is_match(f.path.as_str());
        if !file_matches {
            return None;
        }
        let label_matches = match self.label_pattern(d.label_rule) {
            None => None,
            Some(label) => {
                let text: &str = match &f.content {
                    Some(c) => c.as_str(),
                    None => {
                        proof {
                            reveal_strlit("");
                            assert(""@ =~= Seq::<char>::empty());
                        }
                        ""
                    },
                };
                Some(label.is_match(text))
            },
        };
        sensor_path_for(f.path.as_str(), file_matches, label_matches)
    }

    /// The first sensor path that rule `d` finds among `files`.
    pub fn match_files(&self, d: &Descriptor, files: &Vec<SensorFile>) -> (r: Option<String>)
        ensures
            text_of(r) == first_in_files(self.core_index(), d.view(), files@, 0),
    {
        let mut i: usize = 0;
        while i < files.len()
            invariant
                i <= files@.len(),
                first_in_files(self.core_index(), d.view(), files@, 0)
                    == first_in_files(self.core_index(), d.view(), files@, i as int),
            decreases files@.len() - i,
        {
            let found = self.match_file(d, &files[i]);
            if found.is_some() {
                return found;
            }
            i = i + 1;
        }
        None
    }

    /// The sensor path that entry `e` yields: each rule of the entry's driver
    /// is tried in priority order over the entry's files.
    pub fn match_entry(&self, e: &HwmonEntry) -> (r: Option<String>)
        ensures
            text_of(r) == entry_candidate(self.core_index(), *e),
    {
        let raw: &str = match &e.name {
            Some(n) => n.as_str(),
            None => {
                proof {
                    reveal_strlit("");
                    assert(""@ =~= Seq::<char>::empty());
                }
                ""
            },
        };
        let name: String = trim_text(raw).to_owned();
        let table = drivers();
        let mut k: usize = 0;
        while k < table.len()
            invariant
                k <= table@.len(),
                table@.len() == driver_table().len(),
                forall|j: int| 0 <= j < table@.len() ==> (#[trigger] table@[j]).view() == driver_table()[j],
                name@ == driver_of(*e),
                entry_candidate(self.core_index(), *e)
                    == first_in_rules(self.core_index(), name@, e.files@, k as int),
            decreases table@.len() - k,
        {
            let d = &table[k];
            let driver: String = d.driver.to_owned();
            if driver == name {
                let found = self.match_files(d, &e.files);
                if found.is_some() {
                    return found;
                }
            }
            k = k + 1;
        }
        None
    }

    /// The sensor path found in `tree`: entries are visited in order, and
    /// the first path that any of them yields wins.
    pub fn locate(&self, tree: &Vec<HwmonEntry>) -> (r: Option<String>)
        ensures
            text_of(r) == located(self.core_index(), tree@),
    {
        let mut i: usize = 0;
        while i < tree.len()
            invariant
                i <= tree@.len(),
                located(self.core_index(), tree@) == first_in_tree(self.core_index(), tree@, i as int),
            decreases tree@.len() - i,
        {
            let found = self.match_entry(&tree[i]);
            if found.is_some() {
                return found;
            }
            i = i + 1;
        }
        None
    }
}

/// Discovery of the sensor file for `core_id` in `tree`: the path found, or
/// `None` where nothing matches or a pattern does not compile.
pub fn find_cpu_temp_sensor(core_id: u16, tree: &Vec<HwmonEntry>) -> (r: Option<String>)
    ensures
        text_of(r) == if rules_compile(core_id) {
            located(core_id, tree@)
        } else {
            None
        },
{
    match SensorRules::new(core_id) {
        Some(rules) => rules.locate(tree),
        None => None,
    }
}

} // verus!
