//! The registry: the machines found under one root directory, each in a
//! directory of its own that holds its configuration file.
//!
//! Nothing is kept between operations. The caller scans the root directory
//! anew each time and hands over what it found.

use crate::config::{Config, ConfigView};
use crate::document::parsed_items;
use crate::error::{ErrorKind, RegistryError, RegistryErrorView};
use crate::path::{join, joined};
use crate::schema::{
    document_reads_as, lemma_reading_is_determined, lemma_unknown_field_is_rejected, FaultView,
    Scope,
};
use crate::text::same_text;
use vstd::prelude::*;

verus! {

/// Whether the text of a configuration file reads as `outcome`: as its
/// document does, or as a fault of syntax where it is no document.
pub open spec fn text_reads_as(text: Seq<char>, outcome: Result<ConfigView, FaultView>) -> bool {
    match parsed_items(text) {
        Some(items) => document_reads_as(items, outcome),
        None => outcome matches Err(FaultView::Syntax(_)),
    }
}

/// Whether the text of a configuration file is a configuration.
pub open spec fn text_accepted(text: Seq<char>) -> bool {
    exists|config: ConfigView| text_reads_as(text, Ok(config))
}

/// The configuration that an accepted text is.
pub open spec fn text_config(text: Seq<char>) -> ConfigView
    recommends
        text_accepted(text),
{
    choose|config: ConfigView| text_reads_as(text, Ok(config))
}

/// The registry's root below the user's home directory.
pub open spec fn machines_dir(home: Seq<char>) -> Seq<char> {
    joined(home, ".local/share/qemubox/machines"@)
}

/// Where the configuration file of the machine in `directory` lies.
pub open spec fn config_path(directory: Seq<char>) -> Seq<char> {
    joined(directory, "machine.toml"@)
}

/// The path of the configuration file of the machine in `directory`.
pub fn config_file(directory: &str) -> (r: String)
    ensures
        r@ == config_path(directory@),
{
    join(directory, "machine.toml")
}

/// One item of the root directory, as a scan found it.
#[derive(Clone, Debug, PartialEq, Eq)]
pub struct DirItem {
    /// The item's name in the root directory.
    pub name: String,
    /// Whether the item is known to be a directory.
    pub is_dir: bool,
    /// The text of the configuration file in it, where one could be read.
    pub config: Option<String>,
}

/// What a `DirItem` holds, as mathematical values.
pub struct DirItemView {
    pub name: Seq<char>,
    pub is_dir: bool,
    pub config: Option<Seq<char>>,
}

impl View for DirItem {
    type V = DirItemView;

    open spec fn view(&self) -> DirItemView {
        DirItemView {
            name: self.name@,
            is_dir: self.is_dir,
            config: match self.config {
                Some(text) => Some(text@),
                None => None,
            },
        }
    }
}

impl DeepView for DirItem {
    type V = DirItemView;

    open spec fn deep_view(&self) -> DirItemView {
        self@
    }
}

impl DirItemView {
    /// Whether the item is a machine: a directory whose configuration file
    /// could be read.
    pub open spec fn is_machine(self) -> bool {
        self.is_dir && self.config is Some
    }

    /// Whether the item is a machine whose configuration file is no
    /// configuration.
    pub open spec fn is_broken(self) -> bool {
        self.is_machine() && !text_accepted(self.config->0)
    }
}

/// One machine of the registry.
#[derive(Clone, Debug, PartialEq, Eq)]
pub struct MachineEntry {
    /// The machine's name: that of its directory.
    pub name: String,
    /// The machine's configuration.
    pub config: Config,
    /// The machine's directory: the one named `name` under the root.
    pub directory: String,
}

/// What a `MachineEntry` holds, as mathematical values.
pub struct MachineEntryView {
    pub name: Seq<char>,
    pub config: ConfigView,
    pub directory: Seq<char>,
}

impl View for MachineEntry {
    type V = MachineEntryView;

    open spec fn view(&self) -> MachineEntryView {
        MachineEntryView { name: self.name@, config: self.config@, directory: self.directory@ }
    }
}

impl DeepView for MachineEntry {
    type V = MachineEntryView;

    open spec fn deep_view(&self) -> MachineEntryView {
        self@
    }
}

/// The entry for `item`, a machine under `root` whose configuration is
/// accepted.
pub open spec fn entry_of(root: Seq<char>, item: DirItemView) -> MachineEntryView {
    MachineEntryView {
        name: item.name,
        config: text_config(item.config->0),
        directory: joined(root, item.name),
    }
}

/// The entries for the machines among `items`, in the order of `items`.
pub open spec fn collected(root: Seq<char>, items: Seq<DirItemView>) -> Seq<MachineEntryView>
    decreases items.len(),
{
    if items.len() == 0 {
        Seq::empty()
    } else if items.last().is_machine() {
        collected(root, items.drop_last()).push(entry_of(root, items.last()))
    } else {
        collected(root, items.drop_last())
    }
}

/// What a scan found, as mathematical values; `None` where the root could
/// not be read.
pub open spec fn scan_view(scan: Option<&Vec<DirItem>>) -> Option<Seq<DirItemView>> {
    match scan {
        Some(items) => Some(items.deep_view()),
        None => None,
    }
}

/// Whether the scan gives a registry: the root was read, and no machine's
/// configuration file is broken.
pub open spec fn scan_succeeds(scan: Option<Seq<DirItemView>>) -> bool {
    scan matches Some(items) && forall|i: int|
        0 <= i < items.len() ==> !(#[trigger] items[i]).is_broken()
}

/// Whether the item at `i` is the first machine whose configuration file is
/// broken.
pub open spec fn first_broken(items: Seq<DirItemView>, i: int) -> bool {
    &&& 0 <= i < items.len()
    &&& items[i].is_broken()
    &&& forall|j: int| 0 <= j < i ==> !(#[trigger] items[j]).is_broken()
}

/// Whether a scan that gives no registry fails with `error`: a root that
/// could not be read says so, and the first broken configuration file is
/// reported with its path and its fault.
pub open spec fn scan_fails_with(
    root: Seq<char>,
    scan: Option<Seq<DirItemView>>,
    error: RegistryErrorView,
) -> bool {
    match scan {
        None => error == RegistryErrorView::ReadMachinesDirectoryFail,
        Some(items) => exists|i: int|
            {
                &&& #[trigger] first_broken(items, i)
                &&& error matches RegistryErrorView::Deserialize(path, fault)
                &&& path == config_path(joined(root, items[i].name))
                &&& text_reads_as(items[i].config->0, Err::<ConfigView, FaultView>(fault))
            },
    }
}

/// The machines under one root directory, as one scan found them.
#[derive(Clone, Debug, PartialEq, Eq)]
pub struct Registry {
    /// The root directory.
    pub root: String,
    /// The machines, in the order in which the scan found them.
    pub machines: Vec<MachineEntry>,
}

/// What a `Registry` holds, as mathematical values.
pub struct RegistryView {
    pub root: Seq<char>,
    pub machines: Seq<MachineEntryView>,
}

impl View for Registry {
    type V = RegistryView;

    open spec fn view(&self) -> RegistryView {
        RegistryView { root: self.root@, machines: self.machines.deep_view() }
    }
}

/// The first of `machines` that is named `name`.
pub open spec fn found(machines: Seq<MachineEntryView>, name: Seq<char>) -> Option<
    MachineEntryView,
>
    decreases machines.len(),
{
    if machines.len() == 0 {
        None
    } else if machines[0].name == name {
        Some(machines[0])
    } else {
        found(machines.drop_first(), name)
    }
}

impl RegistryView {
    /// Whether each machine's directory is the one named like it under the
    /// root.
    pub open spec fn well_formed(self) -> bool {
        forall|i: int|
            0 <= i < self.machines.len() ==> (#[trigger] self.machines[i]).directory == joined(
                self.root,
                self.machines[i].name,
            )
    }

    /// Whether a machine is named `name`.
    pub open spec fn has(self, name: Seq<char>) -> bool {
        exists|i: int| 0 <= i < self.machines.len() && (#[trigger] self.machines[i]).name == name
    }

    /// The names of the machines, in their order.
    pub open spec fn names(self) -> Seq<Seq<char>> {
        names_of(self.machines)
    }
}

/// The registry's root directory, which lies below the user's home directory
/// `home`. Without a home directory there is no registry.
pub fn get_machines_dir(home: Option<&str>) -> (r: Result<String, RegistryError>)
    ensures
        match home {
            Some(home) => r matches Ok(root) && root@ == machines_dir(home@),
            None => r matches Err(RegistryError::NoHomeDirectory),
        },
{
    match home {
        Some(home) => Ok(join(home, ".local/share/qemubox/machines")),
        None => Err(RegistryError::NoHomeDirectory),
    }
}

/// The machines under `root`, from the scan of `root`; `scan` is `None`
/// where `root` could not be read.
///
/// A machine is a directory whose configuration file could be read; other
/// items are passed over. The first machine whose configuration file is no
/// configuration fails the whole operation, with the path of that file.
pub fn get_machines(root: &str, scan: Option<&Vec<DirItem>>) -> (r: Result<
    Registry,
    RegistryError,
>)
    ensures
        match r {
            Ok(registry) => {
                &&& scan_succeeds(scan_view(scan))
                &&& registry@.root == root@
                &&& registry@.machines == collected(root@, scan_view(scan)->0)
                &&& registry@.well_formed()
            },
            Err(error) => {
                &&& !scan_succeeds(scan_view(scan))
                &&& scan_fails_with(root@, scan_view(scan), error@)
            },
        },
{
    let items = match scan {
        Some(items) => items,
        None => {
            return Err(RegistryError::ReadMachinesDirectoryFail);
        },
    };
    let ghost all = items.deep_view();
    let mut machines: Vec<MachineEntry> = Vec::new();
    let mut i: usize = 0;
    while i < items.len()
        invariant
            0 <= i <= items.len(),
            all == items.deep_view(),
            all.len() == items.len(),
            scan_view(scan) == Some(all),
            forall|j: int| 0 <= j < i ==> !(#[trigger] all[j]).is_broken(),
            machines.deep_view() == collected(root@, all.take(i as int)),
            forall|k: int|
                0 <= k < machines.len() ==> (#[trigger] machines.deep_view()[k]).directory
                    == joined(root@, machines.deep_view()[k].name),
        decreases items.len() - i,
    {
        let item = &items[i];
        assert(all.take(i as int + 1).drop_last() =~= all.take(i as int));
        if item.is_dir {
            match &item.config {
                Some(text) => {
                    let directory = join(root, item.name.as_str());
                    match Config::from_toml(text.as_str()) {
                        Ok(config) => {
                            assert(text_reads_as(text@, Ok(config@)));
                            proof {
                                lemma_text_config(text@, config@);
                            }
                            let ghost before = machines.deep_view();
                            let entry = MachineEntry {
                                name: item.name.clone(),
                                config,
                                directory,
                            };
                            machines.push(entry);
                            assert(machines.deep_view() =~= before.push(
                                entry_of(root@, all[i as int]),
                            ));
                        },
                        Err(fault) => {
                            proof {
                                lemma_rejected(text@, fault@);
                            }
                            let path = config_file(directory.as_str());
                            assert(first_broken(all, i as int));
                            let error = RegistryError::Deserialize(path, fault);
                            assert(scan_fails_with(root@, scan_view(scan), error@));
                            return Err(error);
                        },
                    }
                },
                None => {},
            }
        }
        i += 1;
    }
    assert(all.take(i as int) =~= all);
    Ok(Registry { root: String::from_str(root), machines })
}

/// A text that reads as a configuration is that configuration and no other.
pub proof fn lemma_text_config(text: Seq<char>, config: ConfigView)
    requires
        text_reads_as(text, Ok(config)),
    ensures
        text_accepted(text),
        text_config(text) == config,
{
    let chosen = text_config(text);
    lemma_reading_is_determined(parsed_items(text)->0, Ok(config), Ok(chosen));
}

/// A text that reads as a fault is no configuration.
pub proof fn lemma_rejected(text: Seq<char>, fault: FaultView)
    requires
        text_reads_as(text, Err::<ConfigView, FaultView>(fault)),
    ensures
        !text_accepted(text),
{
    if text_accepted(text) {
        let config = text_config(text);
        lemma_reading_is_determined(
            parsed_items(text)->0,
            Ok(config),
            Err::<ConfigView, FaultView>(fault),
        );
    }
}

impl Registry {
    /// The machine named `name`: the first one, should the scan have found
    /// the name twice.
    pub fn find(&self, name: &str) -> (r: Result<&MachineEntry, RegistryError>)
        ensures
            match r {
                Ok(entry) => found(self@.machines, name@) == Some(entry@),
                Err(error) => error matches RegistryError::NoMachineByName && found(
                    self@.machines,
                    name@,
                ) is None,
            },
    {
        let ghost all = self@.machines;
        assert(all.skip(0) =~= all);
        let mut i: usize = 0;
        while i < self.machines.len()
            invariant
                0 <= i <= self.machines.len(),
                all == self@.machines,
                found(all, name@) == found(all.skip(i as int), name@),
            decreases self.machines.len() - i,
        {
            assert(all.skip(i as int).drop_first() =~= all.skip(i as int + 1));
            if same_text(self.machines[i].name.as_str(), name) {
                return Ok(&self.machines[i]);
            }
            i += 1;
        }
        Err(RegistryError::NoMachineByName)
    }

    /// The names of the machines, in the order of the scan.
    pub fn names(&self) -> (r: Vec<String>)
        ensures
            r.deep_view() == self@.names(),
    {
        let mut names: Vec<String> = Vec::new();
        let mut i: usize = 0;
        while i < self.machines.len()
            invariant
                0 <= i <= self.machines.len(),
                names.len() == i,
                forall|j: int|
                    0 <= j < i ==> (#[trigger] names.deep_view()[j]) == self@.machines[j].name,
            decreases self.machines.len() - i,
        {
            let ghost before = names.deep_view();
            names.push(self.machines[i].name.clone());
            assert(names.deep_view() =~= before.push(self.machines[i as int].name@));
            i += 1;
        }
        names
    }
}

/// The names of the entries, in their order.
pub open spec fn names_of(machines: Seq<MachineEntryView>) -> Seq<Seq<char>> {
    Seq::new(machines.len(), |i: int| machines[i].name)
}

/// The names of the machines under `root`, for listing them; it fails as
/// `get_machines` does.
pub fn ls(root: &str, scan: Option<&Vec<DirItem>>) -> (r: Result<Vec<String>, RegistryError>)
    ensures
        match r {
            Ok(names) => {
                &&& scan_succeeds(scan_view(scan))
                &&& names.deep_view() == names_of(collected(root@, scan_view(scan)->0))
            },
            Err(error) => {
                &&& !scan_succeeds(scan_view(scan))
                &&& scan_fails_with(root@, scan_view(scan), error@)
            },
        },
{
    match get_machines(root, scan) {
        Ok(registry) => Ok(registry.names()),
        Err(error) => Err(error),
    }
}

/// A machine is found exactly where one of that name is in the registry, and
/// what is found has that name.
pub proof fn lemma_found_iff_present(registry: Registry, name: &str)
    ensures
        found(registry@.machines, name@) is Some <==> registry@.has(name@),
        found(registry@.machines, name@) matches Some(entry) ==> entry.name == name@
            && registry@.machines.contains(entry),
{
    lemma_found(registry@.machines, name@);
}

proof fn lemma_found(machines: Seq<MachineEntryView>, name: Seq<char>)
    ensures
        found(machines, name) is Some <==> exists|i: int|
            0 <= i < machines.len() && (#[trigger] machines[i]).name == name,
        found(machines, name) matches Some(entry) ==> entry.name == name && machines.contains(
            entry,
        ),
    decreases machines.len(),
{
    if machines.len() > 0 {
        let rest = machines.drop_first();
        lemma_found(rest, name);
        if machines[0].name != name {
            if found(rest, name) is Some {
                let i = choose|i: int| 0 <= i < rest.len() && (#[trigger] rest[i]).name == name;
                assert(machines[i + 1] == rest[i]);
                let entry = found(rest, name)->0;
                let k = choose|k: int| 0 <= k < rest.len() && rest[k] == entry;
                assert(machines[k + 1] == entry);
            }
            if exists|i: int| 0 <= i < machines.len() && (#[trigger] machines[i]).name == name {
                let i = choose|i: int|
                    0 <= i < machines.len() && (#[trigger] machines[i]).name == name;
                assert(rest[i - 1] == machines[i]);
            }
        }
    }
}

/// Each entry for the machines among `items` has the name of one of them.
proof fn lemma_collected_names(root: Seq<char>, items: Seq<DirItemView>)
    ensures
        forall|k: int|
            0 <= k < collected(root, items).len() ==> exists|i: int|
                0 <= i < items.len() && (#[trigger] items[i]).name == (#[trigger] collected(
                    root,
                    items,
                )[k]).name,
    decreases items.len(),
{
    if items.len() > 0 {
        let front = items.drop_last();
        lemma_collected_names(root, front);
        assert forall|k: int| 0 <= k < collected(root, items).len() implies exists|i: int|
            0 <= i < items.len() && (#[trigger] items[i]).name == (#[trigger] collected(
                root,
                items,
            )[k]).name by {
            if k < collected(root, front).len() {
                let i = choose|i: int|
                    0 <= i < front.len() && (#[trigger] front[i]).name == collected(
                        root,
                        front,
                    )[k].name;
                assert(items[i] == front[i]);
            } else {
                assert(items[items.len() - 1].name == collected(root, items)[k].name);
            }
        }
    }
}

/// Where the scan found no name twice, no two machines of the registry share
/// a name.
pub proof fn lemma_names_are_unique(root: Seq<char>, items: Seq<DirItemView>)
    requires
        forall|i: int, j: int|
            0 <= i < j < items.len() ==> (#[trigger] items[i]).name != (#[trigger] items[j]).name,
    ensures
        forall|a: int, b: int|
            0 <= a < b < collected(root, items).len() ==> (#[trigger] collected(
                root,
                items,
            )[a]).name != (#[trigger] collected(root, items)[b]).name,
    decreases items.len(),
{
    if items.len() > 0 {
        let front = items.drop_last();
        assert forall|i: int, j: int| 0 <= i < j < front.len() implies (#[trigger] front[i]).name
            != (#[trigger] front[j]).name by {
            assert(front[i] == items[i] && front[j] == items[j]);
        }
        lemma_names_are_unique(root, front);
        lemma_collected_names(root, front);
        let all = collected(root, items);
        assert forall|a: int, b: int| 0 <= a < b < all.len() implies (#[trigger] all[a]).name != (
        #[trigger] all[b]).name by {
            if b < collected(root, front).len() {
                assert(all[a] == collected(root, front)[a] && all[b] == collected(root, front)[b]);
            } else {
                let i = choose|i: int|
                    0 <= i < front.len() && (#[trigger] front[i]).name == collected(
                        root,
                        front,
                    )[a].name;
                assert(front[i] == items[i]);
                assert(all[b].name == items[items.len() - 1].name);
            }
        }
    }
}

/// An item without a configuration file that can be read is no machine: the
/// registry does not list it.
pub proof fn lemma_unreadable_is_not_listed(
    root: Seq<char>,
    items: Seq<DirItemView>,
    name: Seq<char>,
)
    requires
        forall|i: int|
            0 <= i < items.len() && (#[trigger] items[i]).name == name ==> items[i].config is None,
    ensures
        found(collected(root, items), name) is None,
{
    lemma_found(collected(root, items), name);
    lemma_not_collected(root, items, name);
}

proof fn lemma_not_collected(root: Seq<char>, items: Seq<DirItemView>, name: Seq<char>)
    requires
        forall|i: int|
            0 <= i < items.len() && (#[trigger] items[i]).name == name ==> !items[i].is_machine(),
    ensures
        forall|k: int|
            0 <= k < collected(root, items).len() ==> (#[trigger] collected(root, items)[k]).name
                != name,
    decreases items.len(),
{
    if items.len() > 0 {
        let front = items.drop_last();
        assert forall|i: int| 0 <= i < front.len() && (#[trigger] front[i]).name
            == name implies !front[i].is_machine() by {
            assert(front[i] == items[i]);
        }
        lemma_not_collected(root, front, name);
    }
}

/// A machine whose configuration file holds a key outside the schema fails
/// the scan. Where no machine before it is broken, the failure is of the
/// kind `Config`, names that machine's configuration file, and names such a
/// key.
pub proof fn lemma_unknown_field_fails_scan(
    root: Seq<char>,
    items: Seq<DirItemView>,
    i: int,
    key: Seq<char>,
    error: RegistryErrorView,
)
    requires
        0 <= i < items.len(),
        items[i].is_machine(),
        parsed_items(items[i].config->0) matches Some(document) && document.contains_key(key)
            && !Scope::Document.knows(key),
        forall|j: int| 0 <= j < i ==> !(#[trigger] items[j]).is_broken(),
        scan_fails_with(root, Some(items), error),
    ensures
        !scan_succeeds(Some(items)),
        error.kind() == ErrorKind::Config,
        error matches RegistryErrorView::Deserialize(path, FaultView::UnknownField(named))
            && path == config_path(joined(root, items[i].name)) && !Scope::Document.knows(named),
{
    let text = items[i].config->0;
    let document = parsed_items(text)->0;
    if text_accepted(text) {
        let config = text_config(text);
        lemma_unknown_field_is_rejected(document, key, Ok(config));
    }
    let first = choose|k: int|
        {
            &&& #[trigger] first_broken(items, k)
            &&& error matches RegistryErrorView::Deserialize(path, fault)
            &&& path == config_path(joined(root, items[k].name))
            &&& text_reads_as(items[k].config->0, Err::<ConfigView, FaultView>(fault))
        };
    assert(first == i);
    let fault = error->Deserialize_1;
    lemma_unknown_field_is_rejected(
        document,
        key,
        Err::<ConfigView, FaultView>(fault),
    );
}

} // verus!
