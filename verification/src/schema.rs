//! The schema of a machine's configuration file: which keys a document may
//! hold, what each of them holds, and what stands for a key that is absent.

use crate::config::{
    default_machine, lemma_video_names_differ, valid_machine, Config, ConfigView, Machine,
    MachineView, VideoOption,
};
use crate::document::{
    empty_table, failure_message, insert_field, lookup, no_items, parse_table, parsed_items,
    pretty_text, render_table, table_items, table_keys, Field, Item, Lookup,
};
use crate::text::same_text;
use vstd::prelude::*;

verus! {

/// A field of the schema: the table `machine` and the six keys in it.
#[derive(Clone, Copy, Debug, PartialEq, Eq, Structural)]
pub enum SchemaField {
    Machine,
    Disk,
    Cpus,
    Memory,
    Kvm,
    Uefi,
    Video,
}

impl SchemaField {
    /// The key under which the field stands.
    pub open spec fn key_text(self) -> Seq<char> {
        match self {
            SchemaField::Machine => "machine"@,
            SchemaField::Disk => "disk"@,
            SchemaField::Cpus => "cpus"@,
            SchemaField::Memory => "memory"@,
            SchemaField::Kvm => "kvm"@,
            SchemaField::Uefi => "uefi"@,
            SchemaField::Video => "video"@,
        }
    }

    /// The key under which the field stands.
    pub fn key(&self) -> (r: &'static str)
        ensures
            r@ == self.key_text(),
    {
        match self {
            SchemaField::Machine => "machine",
            SchemaField::Disk => "disk",
            SchemaField::Cpus => "cpus",
            SchemaField::Memory => "memory",
            SchemaField::Kvm => "kvm",
            SchemaField::Uefi => "uefi",
            SchemaField::Video => "video",
        }
    }
}

/// Why a text is no configuration.
#[derive(Clone, Debug, PartialEq, Eq)]
pub enum ConfigFault {
    /// The text is no TOML document; the parser's reason is given.
    Syntax(String),
    /// A key stands where the schema has no field of that name.
    UnknownField(String),
    /// The field holds a value of another kind than the schema gives it.
    WrongType(SchemaField),
    /// The count is not positive, or too large.
    OutOfRange(SchemaField),
    /// The text names no display adapter.
    UnknownVideo(String),
}

/// What a `ConfigFault` holds, as mathematical values.
pub enum FaultView {
    Syntax(Seq<char>),
    UnknownField(Seq<char>),
    WrongType(SchemaField),
    OutOfRange(SchemaField),
    UnknownVideo(Seq<char>),
}

impl View for ConfigFault {
    type V = FaultView;

    open spec fn view(&self) -> FaultView {
        match self {
            ConfigFault::Syntax(detail) => FaultView::Syntax(detail@),
            ConfigFault::UnknownField(key) => FaultView::UnknownField(key@),
            ConfigFault::WrongType(field) => FaultView::WrongType(*field),
            ConfigFault::OutOfRange(field) => FaultView::OutOfRange(*field),
            ConfigFault::UnknownVideo(name) => FaultView::UnknownVideo(name@),
        }
    }
}

/// A table of the schema: the document itself, or the table `machine` in it.
#[derive(Clone, Copy, Debug, PartialEq, Eq, Structural)]
pub enum Scope {
    Document,
    Machine,
}

impl Scope {
    /// Whether the schema has a field named `key` in this table.
    pub open spec fn knows(self, key: Seq<char>) -> bool {
        match self {
            Scope::Document => key == SchemaField::Machine.key_text(),
            Scope::Machine => {
                ||| key == SchemaField::Disk.key_text()
                ||| key == SchemaField::Cpus.key_text()
                ||| key == SchemaField::Memory.key_text()
                ||| key == SchemaField::Kvm.key_text()
                ||| key == SchemaField::Uefi.key_text()
                ||| key == SchemaField::Video.key_text()
            },
        }
    }

    /// Whether the schema has a field named `key` in this table.
    pub fn has_field(&self, key: &str) -> (r: bool)
        ensures
            r == self.knows(key@),
    {
        match self {
            Scope::Document => same_text(key, SchemaField::Machine.key()),
            Scope::Machine => {
                same_text(key, SchemaField::Disk.key()) || same_text(key, SchemaField::Cpus.key())
                    || same_text(key, SchemaField::Memory.key()) || same_text(
                    key,
                    SchemaField::Kvm.key(),
                ) || same_text(key, SchemaField::Uefi.key()) || same_text(
                    key,
                    SchemaField::Video.key(),
                )
            },
        }
    }
}

/// Whether `items` holds a key that the schema does not know in `scope`.
pub open spec fn has_unknown_key(items: Map<Seq<char>, Item>, scope: Scope) -> bool {
    exists|key: Seq<char>| items.contains_key(key) && !scope.knows(key)
}

/// The display adapter that `name` names.
pub open spec fn video_named(name: Seq<char>) -> Option<VideoOption> {
    if name == VideoOption::Std.name_text() {
        Some(VideoOption::Std)
    } else if name == VideoOption::VirtIo.name_text() {
        Some(VideoOption::VirtIo)
    } else if name == VideoOption::Qxl.name_text() {
        Some(VideoOption::Qxl)
    } else if name == VideoOption::Off.name_text() {
        Some(VideoOption::Off)
    } else {
        None
    }
}

/// The text that `items` gives for `field`: `default` where the key is
/// absent.
pub open spec fn text_field(
    items: Map<Seq<char>, Item>,
    field: SchemaField,
    default: Seq<char>,
) -> Result<Seq<char>, FaultView> {
    if !items.contains_key(field.key_text()) {
        Ok(default)
    } else {
        match items[field.key_text()] {
            Item::Text(text) => Ok(text),
            _ => Err(FaultView::WrongType(field)),
        }
    }
}

/// The count that `items` gives for `field`: `default` where the key is
/// absent. A count is positive and fits in 32 bits.
pub open spec fn count_field(
    items: Map<Seq<char>, Item>,
    field: SchemaField,
    default: u32,
) -> Result<u32, FaultView> {
    if !items.contains_key(field.key_text()) {
        Ok(default)
    } else {
        match items[field.key_text()] {
            Item::Integer(number) => if 1 <= number <= u32::MAX {
                Ok(number as u32)
            } else {
                Err(FaultView::OutOfRange(field))
            },
            _ => Err(FaultView::WrongType(field)),
        }
    }
}

/// The switch that `items` gives for `field`: `default` where the key is
/// absent.
pub open spec fn flag_field(
    items: Map<Seq<char>, Item>,
    field: SchemaField,
    default: bool,
) -> Result<bool, FaultView> {
    if !items.contains_key(field.key_text()) {
        Ok(default)
    } else {
        match items[field.key_text()] {
            Item::Boolean(flag) => Ok(flag),
            _ => Err(FaultView::WrongType(field)),
        }
    }
}

/// The display adapter that `items` gives: `default` where the key is
/// absent.
pub open spec fn video_field(items: Map<Seq<char>, Item>, default: VideoOption) -> Result<
    VideoOption,
    FaultView,
> {
    if !items.contains_key(SchemaField::Video.key_text()) {
        Ok(default)
    } else {
        match items[SchemaField::Video.key_text()] {
            Item::Text(name) => match video_named(name) {
                Some(video) => Ok(video),
                None => Err(FaultView::UnknownVideo(name)),
            },
            _ => Err(FaultView::WrongType(SchemaField::Video)),
        }
    }
}

/// The machine that the fields of `items` describe, or the first fault among
/// them in the order disk, cpus, memory, kvm, uefi, video.
pub open spec fn machine_fields(items: Map<Seq<char>, Item>) -> Result<MachineView, FaultView> {
    let standard = default_machine();
    match text_field(items, SchemaField::Disk, standard.disk) {
        Err(fault) => Err(fault),
        Ok(disk) => match count_field(items, SchemaField::Cpus, standard.cpus) {
            Err(fault) => Err(fault),
            Ok(cpus) => match count_field(items, SchemaField::Memory, standard.memory) {
                Err(fault) => Err(fault),
                Ok(memory) => match flag_field(items, SchemaField::Kvm, standard.kvm) {
                    Err(fault) => Err(fault),
                    Ok(kvm) => match flag_field(items, SchemaField::Uefi, standard.uefi) {
                        Err(fault) => Err(fault),
                        Ok(uefi) => match video_field(items, standard.video) {
                            Err(fault) => Err(fault),
                            Ok(video) => Ok(
                                MachineView { disk, cpus, memory, kvm, uefi, video },
                            ),
                        },
                    },
                },
            },
        },
    }
}

/// Whether the table `machine` with the entries `items` reads as `outcome`.
/// A key outside the schema is a fault before any other, and `outcome` names
/// one such key; without one, `outcome` is what the fields give.
pub open spec fn machine_reads_as(
    items: Map<Seq<char>, Item>,
    outcome: Result<MachineView, FaultView>,
) -> bool {
    if has_unknown_key(items, Scope::Machine) {
        outcome matches Err(FaultView::UnknownField(key)) && items.contains_key(key)
            && !Scope::Machine.knows(key)
    } else {
        outcome == machine_fields(items)
    }
}

/// The outcome of a table `machine`, from that of its document.
pub open spec fn lower(outcome: Result<ConfigView, FaultView>) -> Result<MachineView, FaultView> {
    match outcome {
        Ok(config) => Ok(config.machine),
        Err(fault) => Err(fault),
    }
}

/// Whether the document with the entries `items` reads as `outcome`. A key
/// other than `machine` is a fault before any other. A document without
/// `machine` is the default configuration; one where `machine` is no table
/// is a fault; else the document reads as its table `machine` does.
pub open spec fn document_reads_as(
    items: Map<Seq<char>, Item>,
    outcome: Result<ConfigView, FaultView>,
) -> bool {
    if has_unknown_key(items, Scope::Document) {
        outcome matches Err(FaultView::UnknownField(key)) && items.contains_key(key)
            && !Scope::Document.knows(key)
    } else if !items.contains_key(SchemaField::Machine.key_text()) {
        outcome == Ok::<ConfigView, FaultView>(ConfigView { machine: default_machine() })
    } else {
        match items[SchemaField::Machine.key_text()] {
            Item::Table(inner) => machine_reads_as(inner, lower(outcome)),
            _ => outcome == Err::<ConfigView, FaultView>(
                FaultView::WrongType(SchemaField::Machine),
            ),
        }
    }
}

/// The view of an outcome.
pub open spec fn machine_outcome(outcome: Result<Machine, ConfigFault>) -> Result<
    MachineView,
    FaultView,
> {
    match outcome {
        Ok(machine) => Ok(machine@),
        Err(fault) => Err(fault@),
    }
}

/// The view of an outcome.
pub open spec fn config_outcome(outcome: Result<Config, ConfigFault>) -> Result<
    ConfigView,
    FaultView,
> {
    match outcome {
        Ok(config) => Ok(config@),
        Err(fault) => Err(fault@),
    }
}

/// A key of `table` that the schema does not know in `scope`, if there is
/// one.
fn unknown_key(table: &toml::Table, scope: Scope) -> (r: Option<String>)
    ensures
        r is Some <==> has_unknown_key(table_items(*table), scope),
        r matches Some(key) ==> table_items(*table).contains_key(key@) && !scope.knows(key@),
{
    let keys = table_keys(table);
    let ghost items = table_items(*table);
    let mut i: usize = 0;
    while i < keys.len()
        invariant
            0 <= i <= keys.len(),
            items == table_items(*table),
            forall|key: Seq<char>| keys.deep_view().contains(key) <==> items.contains_key(key),
            forall|j: int| 0 <= j < i ==> scope.knows(#[trigger] keys.deep_view()[j]),
        decreases keys.len() - i,
    {
        if !scope.has_field(keys[i].as_str()) {
            let key = keys[i].clone();
            assert(keys.deep_view()[i as int] == key@);
            return Some(key);
        }
        i += 1;
    }
    assert forall|key: Seq<char>| items.contains_key(key) implies scope.knows(key) by {
        let j = choose|j: int| 0 <= j < keys.deep_view().len() && keys.deep_view()[j] == key;
        assert(scope.knows(keys.deep_view()[j]));
    }
    None
}

fn read_text(table: &toml::Table, field: SchemaField, default: &str) -> (r: Result<
    String,
    ConfigFault,
>)
    ensures
        match r {
            Ok(text) => text_field(table_items(*table), field, default@) == Ok::<
                Seq<char>,
                FaultView,
            >(text@),
            Err(fault) => text_field(table_items(*table), field, default@) == Err::<
                Seq<char>,
                FaultView,
            >(fault@),
        },
{
    match lookup(table, field.key()) {
        Lookup::Absent => Ok(String::from_str(default)),
        Lookup::Found(Field::Text(text)) => Ok(text),
        _ => Err(ConfigFault::WrongType(field)),
    }
}

fn read_count(table: &toml::Table, field: SchemaField, default: u32) -> (r: Result<
    u32,
    ConfigFault,
>)
    ensures
        match r {
            Ok(count) => count_field(table_items(*table), field, default) == Ok::<u32, FaultView>(
                count,
            ),
            Err(fault) => count_field(table_items(*table), field, default) == Err::<
                u32,
                FaultView,
            >(fault@),
        },
{
    match lookup(table, field.key()) {
        Lookup::Absent => Ok(default),
        Lookup::Found(Field::Integer(number)) => {
            if 1 <= number && number <= 0xffff_ffff {
                Ok(number as u32)
            } else {
                Err(ConfigFault::OutOfRange(field))
            }
        },
        _ => Err(ConfigFault::WrongType(field)),
    }
}

fn read_flag(table: &toml::Table, field: SchemaField, default: bool) -> (r: Result<
    bool,
    ConfigFault,
>)
    ensures
        match r {
            Ok(flag) => flag_field(table_items(*table), field, default) == Ok::<bool, FaultView>(
                flag,
            ),
            Err(fault) => flag_field(table_items(*table), field, default) == Err::<
                bool,
                FaultView,
            >(fault@),
        },
{
    match lookup(table, field.key()) {
        Lookup::Absent => Ok(default),
        Lookup::Found(Field::Boolean(flag)) => Ok(flag),
        _ => Err(ConfigFault::WrongType(field)),
    }
}

impl VideoOption {
    /// The display adapter that `name` names, if it names one.
    pub fn from_name(name: &str) -> (r: Option<VideoOption>)
        ensures
            r == video_named(name@),
    {
        if same_text(name, VideoOption::Std.name()) {
            Some(VideoOption::Std)
        } else if same_text(name, VideoOption::VirtIo.name()) {
            Some(VideoOption::VirtIo)
        } else if same_text(name, VideoOption::Qxl.name()) {
            Some(VideoOption::Qxl)
        } else if same_text(name, VideoOption::Off.name()) {
            Some(VideoOption::Off)
        } else {
            None
        }
    }
}

fn read_video(table: &toml::Table, default: VideoOption) -> (r: Result<VideoOption, ConfigFault>)
    ensures
        match r {
            Ok(video) => video_field(table_items(*table), default) == Ok::<
                VideoOption,
                FaultView,
            >(video),
            Err(fault) => video_field(table_items(*table), default) == Err::<
                VideoOption,
                FaultView,
            >(fault@),
        },
{
    match lookup(table, SchemaField::Video.key()) {
        Lookup::Absent => Ok(default),
        Lookup::Found(Field::Text(name)) => match VideoOption::from_name(name.as_str()) {
            Some(video) => Ok(video),
            None => Err(ConfigFault::UnknownVideo(name)),
        },
        _ => Err(ConfigFault::WrongType(SchemaField::Video)),
    }
}

impl Machine {
    /// Reads the table `machine` of a configuration file. A key that is
    /// absent stands for its default; a key outside the schema, a value of
    /// the wrong kind, a count that is not positive and an unknown display
    /// adapter are faults.
    pub fn from_table(table: &toml::Table) -> (r: Result<Machine, ConfigFault>)
        ensures
            machine_reads_as(table_items(*table), machine_outcome(r)),
    {
        match unknown_key(table, Scope::Machine) {
            Some(key) => {
                return Err(ConfigFault::UnknownField(key));
            },
            None => {},
        }
        let standard = Machine::default();
        let disk = match read_text(table, SchemaField::Disk, standard.disk.as_str()) {
            Ok(disk) => disk,
            Err(fault) => {
                return Err(fault);
            },
        };
        let cpus: u32 = match read_count(table, SchemaField::Cpus, standard.cpus) {
            Ok(cpus) => cpus,
            Err(fault) => {
                return Err(fault);
            },
        };
        let memory: u32 = match read_count(table, SchemaField::Memory, standard.memory) {
            Ok(memory) => memory,
            Err(fault) => {
                return Err(fault);
            },
        };
        let kvm = match read_flag(table, SchemaField::Kvm, standard.kvm) {
            Ok(kvm) => kvm,
            Err(fault) => {
                return Err(fault);
            },
        };
        let uefi = match read_flag(table, SchemaField::Uefi, standard.uefi) {
            Ok(uefi) => uefi,
            Err(fault) => {
                return Err(fault);
            },
        };
        let video = match read_video(table, standard.video) {
            Ok(video) => video,
            Err(fault) => {
                return Err(fault);
            },
        };
        Ok(Machine { disk, cpus, memory, kvm, uefi, video })
    }
}

impl Config {
    /// Reads a configuration from the document `table`.
    pub fn from_table(table: &toml::Table) -> (r: Result<Config, ConfigFault>)
        ensures
            document_reads_as(table_items(*table), config_outcome(r)),
    {
        match unknown_key(table, Scope::Document) {
            Some(key) => {
                return Err(ConfigFault::UnknownField(key));
            },
            None => {},
        }
        match lookup(table, SchemaField::Machine.key()) {
            Lookup::Absent => Ok(Config::default()),
            Lookup::Found(Field::Table(inner)) => match Machine::from_table(&inner) {
                Ok(machine) => Ok(Config { machine }),
                Err(fault) => Err(fault),
            },
            _ => Err(ConfigFault::WrongType(SchemaField::Machine)),
        }
    }

    /// Reads a configuration from the text of a configuration file.
    pub fn from_toml(text: &str) -> (r: Result<Config, ConfigFault>)
        ensures
            match parsed_items(text@) {
                Some(items) => document_reads_as(items, config_outcome(r)),
                None => r matches Err(ConfigFault::Syntax(_)),
            },
    {
        match parse_table(text) {
            Ok(table) => Config::from_table(&table),
            Err(error) => Err(ConfigFault::Syntax(failure_message(&error))),
        }
    }
}

/// The entries of the table `machine` that describes `machine`: all six
/// fields.
pub open spec fn machine_items(machine: MachineView) -> Map<Seq<char>, Item> {
    no_items().insert(SchemaField::Disk.key_text(), Item::Text(machine.disk)).insert(
        SchemaField::Cpus.key_text(),
        Item::Integer(machine.cpus as i64),
    ).insert(SchemaField::Memory.key_text(), Item::Integer(machine.memory as i64)).insert(
        SchemaField::Kvm.key_text(),
        Item::Boolean(machine.kvm),
    ).insert(SchemaField::Uefi.key_text(), Item::Boolean(machine.uefi)).insert(
        SchemaField::Video.key_text(),
        Item::Text(machine.video.name_text()),
    )
}

/// The entries of the document that describes `config`.
pub open spec fn config_items(config: ConfigView) -> Map<Seq<char>, Item> {
    no_items().insert(SchemaField::Machine.key_text(), Item::Table(machine_items(config.machine)))
}

impl Machine {
    /// The table `machine` that describes this machine.
    pub fn to_table(&self) -> (r: toml::Table)
        ensures
            table_items(r) == machine_items(self@),
    {
        let mut table = empty_table();
        insert_field(&mut table, SchemaField::Disk.key(), Field::Text(self.disk.clone()));
        insert_field(&mut table, SchemaField::Cpus.key(), Field::Integer(self.cpus as i64));
        insert_field(&mut table, SchemaField::Memory.key(), Field::Integer(self.memory as i64));
        insert_field(&mut table, SchemaField::Kvm.key(), Field::Boolean(self.kvm));
        insert_field(&mut table, SchemaField::Uefi.key(), Field::Boolean(self.uefi));
        insert_field(
            &mut table,
            SchemaField::Video.key(),
            Field::Text(String::from_str(self.video.name())),
        );
        table
    }
}

impl Config {
    /// The document that describes this configuration.
    pub fn to_table(&self) -> (r: toml::Table)
        ensures
            table_items(r) == config_items(self@),
    {
        let mut table = empty_table();
        insert_field(
            &mut table,
            SchemaField::Machine.key(),
            Field::Table(self.machine.to_table()),
        );
        table
    }

    /// The text of the configuration file that describes this configuration,
    /// or `None` where the document cannot be written out.
    pub fn to_toml(&self) -> (r: Option<String>)
        ensures
            match r {
                Some(text) => pretty_text(config_items(self@)) == Some(text@),
                None => pretty_text(config_items(self@)) is None,
            },
    {
        let table = self.to_table();
        match render_table(&table) {
            Ok(text) => Some(text),
            Err(_) => None,
        }
    }
}

/// The lengths and leading characters by which the keys of the schema are
/// told apart.
proof fn lemma_key_shapes()
    ensures
        "machine"@.len() == 7,
        "disk"@.len() == 4 && "disk"@[0] == 'd',
        "cpus"@.len() == 4 && "cpus"@[0] == 'c',
        "memory"@.len() == 6,
        "kvm"@.len() == 3,
        "uefi"@.len() == 4 && "uefi"@[0] == 'u',
        "video"@.len() == 5,
{
    reveal_strlit("machine");
    reveal_strlit("disk");
    reveal_strlit("cpus");
    reveal_strlit("memory");
    reveal_strlit("kvm");
    reveal_strlit("uefi");
    reveal_strlit("video");
}

/// A name of a display adapter names that adapter.
pub proof fn lemma_video_name_round_trip(video: VideoOption)
    ensures
        video_named(video.name_text()) == Some(video),
{
    lemma_video_names_differ(VideoOption::Std, VideoOption::VirtIo);
    lemma_video_names_differ(VideoOption::Std, VideoOption::Qxl);
    lemma_video_names_differ(VideoOption::Std, VideoOption::Off);
    lemma_video_names_differ(VideoOption::VirtIo, VideoOption::Qxl);
    lemma_video_names_differ(VideoOption::VirtIo, VideoOption::Off);
    lemma_video_names_differ(VideoOption::Qxl, VideoOption::Off);
}

/// The table that describes a machine with positive counts reads as that
/// machine.
pub proof fn lemma_machine_round_trip(
    machine: Machine,
    outcome: Result<MachineView, FaultView>,
)
    requires
        valid_machine(machine@),
        machine_reads_as(machine_items(machine@), outcome),
    ensures
        outcome == Ok::<MachineView, FaultView>(machine@),
{
    lemma_key_shapes();
    lemma_video_name_round_trip(machine.video);
    assert(!has_unknown_key(machine_items(machine@), Scope::Machine));
}

/// Writing a configuration with positive counts as a document and reading
/// that document gives the configuration back.
pub proof fn lemma_config_round_trip(config: Config, outcome: Result<ConfigView, FaultView>)
    requires
        valid_machine(config@.machine),
        document_reads_as(config_items(config@), outcome),
    ensures
        outcome == Ok::<ConfigView, FaultView>(config@),
{
    lemma_key_shapes();
    assert(!has_unknown_key(config_items(config@), Scope::Document));
    lemma_machine_round_trip(config.machine, lower(outcome));
}

/// A document that holds a key other than `machine` is no configuration: it
/// reads as the fault that names such a key.
pub proof fn lemma_unknown_field_is_rejected(
    items: Map<Seq<char>, Item>,
    key: Seq<char>,
    outcome: Result<ConfigView, FaultView>,
)
    requires
        items.contains_key(key),
        !Scope::Document.knows(key),
        document_reads_as(items, outcome),
    ensures
        outcome matches Err(FaultView::UnknownField(named)) && items.contains_key(named)
            && !Scope::Document.knows(named),
{
}

/// A document whose table `machine` holds a key outside the schema is no
/// configuration: it reads as the fault that names such a key.
pub proof fn lemma_unknown_machine_field_is_rejected(
    items: Map<Seq<char>, Item>,
    inner: Map<Seq<char>, Item>,
    key: Seq<char>,
    outcome: Result<ConfigView, FaultView>,
)
    requires
        !has_unknown_key(items, Scope::Document),
        items.contains_key(SchemaField::Machine.key_text()),
        items[SchemaField::Machine.key_text()] == Item::Table(inner),
        inner.contains_key(key),
        !Scope::Machine.knows(key),
        document_reads_as(items, outcome),
    ensures
        outcome matches Err(FaultView::UnknownField(named)) && inner.contains_key(named)
            && !Scope::Machine.knows(named),
{
}

/// What a document reads as is decided by its entries: whether it is a
/// configuration, which one, and which fault it is otherwise, up to the key
/// that an unknown-field fault names.
pub proof fn lemma_reading_is_determined(
    items: Map<Seq<char>, Item>,
    first: Result<ConfigView, FaultView>,
    second: Result<ConfigView, FaultView>,
)
    requires
        document_reads_as(items, first),
        document_reads_as(items, second),
    ensures
        first == second || (first matches Err(FaultView::UnknownField(_))
            && second matches Err(FaultView::UnknownField(_))),
{
}

/// A machine that was read from a document has positive counts.
pub proof fn lemma_read_machine_is_valid(
    items: Map<Seq<char>, Item>,
    config: ConfigView,
)
    requires
        document_reads_as(items, Ok(config)),
    ensures
        valid_machine(config.machine),
{
}

} // verus!
