//! Installation configuration: the component catalog, the selection set, and
//! the aggregate size computation.
//!
//! The selection set is plain user state; the invariant that every required
//! component stays selected is maintained by the selection operations, and
//! the total size is recomputed from catalog and selection each time so it
//! cannot drift.

use vstd::prelude::*;

use crate::detector::SystemRequirements;
use crate::error::InstallerError;
use crate::error::InstallerResult;
use crate::text::is_absolute_path;
use crate::text::path_is_absolute;
use crate::text::seq_has_str;
use crate::text::str_eq;
use crate::text::vec_contains_str;

verus! {

/// One installable component of the catalog.
#[derive(Debug, Clone)]
pub struct ComponentInfo {
    /// Unique identifier.
    pub id: String,
    /// Display name.
    pub name: String,
    /// Short description.
    pub description: String,
    /// Transfer size in bytes.
    pub size_bytes: u64,
    /// Whether the component must always be installed.
    pub required: bool,
}

impl ComponentInfo {
    /// Creates a catalog entry.
    pub fn new(id: String, name: String, description: String, size_bytes: u64, required: bool) -> (
        r: ComponentInfo)
        ensures
            r.id == id,
            r.name == name,
            r.description == description,
            r.size_bytes == size_bytes,
            r.required == required,
    {
        ComponentInfo { id, name, description, size_bytes, required }
    }
}

/// The sum of `size_bytes` over exactly the catalog entries whose id is in
/// the selection.
pub open spec fn selected_size(components: Seq<ComponentInfo>, selection: Seq<String>) -> int
    decreases components.len(),
{
    if components.len() == 0 {
        0
    } else {
        selected_size(components.drop_last(), selection) + if seq_has_str(
            selection,
            components.last().id@,
        ) {
            components.last().size_bytes as int
        } else {
            0
        }
    }
}

/// The catalog marks this id as required.
pub open spec fn is_required_id(components: Seq<ComponentInfo>, id: Seq<char>) -> bool {
    exists|i: int| 0 <= i < components.len() && components[i].id@ == id && components[i].required
}

/// Every required component's id is present in the selection.
pub open spec fn selection_wf(components: Seq<ComponentInfo>, selection: Seq<String>) -> bool {
    forall|i: int|
        0 <= i < components.len() && components[i].required ==> seq_has_str(
            selection,
            #[trigger] components[i].id@,
        )
}

/// Whether the catalog requires the component with this id.
pub fn catalog_requires(components: &Vec<ComponentInfo>, id: &str) -> (r: bool)
    ensures
        r == is_required_id(components@, id@),
{
    let mut i: usize = 0;
    while i < components.len()
        invariant
            0 <= i <= components@.len(),
            forall|j: int|
                0 <= j < i ==> !(components@[j].id@ == id@ && components@[j].required),
        decreases components@.len() - i,
    {
        if components[i].required && str_eq(components[i].id.as_str(), id) {
            return true;
        }
        i += 1;
    }
    false
}

/// The default selection for a catalog: exactly the required components.
pub fn default_selection(components: &Vec<ComponentInfo>) -> (r: Vec<String>)
    ensures
        selection_wf(components@, r@),
        forall|i: int|
            0 <= i < r@.len() ==> is_required_id(components@, #[trigger] r@[i]@),
{
    let mut selection: Vec<String> = Vec::new();
    let mut i: usize = 0;
    while i < components.len()
        invariant
            0 <= i <= components@.len(),
            forall|j: int|
                0 <= j < i && components@[j].required ==> seq_has_str(
                    selection@,
                    #[trigger] components@[j].id@,
                ),
            forall|k: int|
                0 <= k < selection@.len() ==> is_required_id(components@, #[trigger] selection@[k]@),
        decreases components@.len() - i,
    {
        if components[i].required {
            let ghost pre = selection@;
            selection.push(components[i].id.clone());
            proof {
                assert(selection@.last()@ == components@[i as int].id@);
                assert forall|j: int|
                    0 <= j < i && components@[j].required implies seq_has_str(
                    selection@,
                    #[trigger] components@[j].id@,
                ) by {
                    crate::text::lemma_push_keeps_has_str(
                        pre,
                        selection@.last(),
                        components@[j].id@,
                    );
                }
                assert(seq_has_str(selection@, components@[i as int].id@)) by {
                    assert(selection@[selection@.len() - 1]@ == components@[i as int].id@);
                }
            }
        }
        i += 1;
    }
    selection
}

/// Main configuration for an installation attempt.
#[derive(Debug, Clone)]
pub struct InstallerConfig {
    /// Installation path.
    pub install_path: String,
    /// Selected component ids.
    pub selected_components: Vec<String>,
    /// Create a desktop shortcut.
    pub create_desktop_shortcut: bool,
    /// Create a start-menu shortcut.
    pub create_start_menu_shortcut: bool,
    /// Add the installation to the PATH environment variable.
    pub add_to_path: bool,
    /// System requirements to hold the host to.
    pub requirements: SystemRequirements,
    /// Last computed total installation size in bytes; maintained by
    /// [`InstallerConfig::calculate_total_size`].
    pub total_size: u64,
}

impl InstallerConfig {
    /// Creates a configuration with default values at the given path.
    pub fn new(default_path: String) -> (r: InstallerConfig)
        ensures
            r.install_path == default_path,
            r.selected_components@.len() == 0,
            r.create_desktop_shortcut,
            r.create_start_menu_shortcut,
            r.add_to_path,
            crate::detector::is_default_requirements(r.requirements),
            r.spec_total_size() == 0,
    {
        InstallerConfig {
            install_path: default_path,
            selected_components: Vec::new(),
            create_desktop_shortcut: true,
            create_start_menu_shortcut: true,
            add_to_path: true,
            requirements: SystemRequirements::default_requirements(),
            total_size: 0,
        }
    }

    /// The stored total size.
    pub closed spec fn spec_total_size(&self) -> u64 {
        self.total_size
    }

    /// Recomputes the total installation size from the catalog and the
    /// current selection: the sum of `size_bytes` over exactly the catalog
    /// entries whose id is selected, saturating at `u64::MAX`.
    pub fn calculate_total_size(&mut self, components: &Vec<ComponentInfo>)
        ensures
            final(self).spec_total_size() == if selected_size(
                components@,
                old(self).selected_components@,
            ) <= u64::MAX {
                selected_size(components@, old(self).selected_components@)
            } else {
                u64::MAX as int
            },
            final(self).install_path == old(self).install_path,
            final(self).selected_components == old(self).selected_components,
            final(self).create_desktop_shortcut == old(self).create_desktop_shortcut,
            final(self).create_start_menu_shortcut == old(self).create_start_menu_shortcut,
            final(self).add_to_path == old(self).add_to_path,
            final(self).requirements == old(self).requirements,
    {
        let mut total: u64 = 0;
        let mut i: usize = 0;
        while i < components.len()
            invariant
                0 <= i <= components@.len(),
                total == if selected_size(
                    components@.take(i as int),
                    self.selected_components@,
                ) <= u64::MAX {
                    selected_size(components@.take(i as int), self.selected_components@)
                } else {
                    u64::MAX as int
                },
            decreases components@.len() - i,
        {
            proof {
                assert(components@.take(i + 1).drop_last() =~= components@.take(i as int));
                assert(components@.take(i + 1).last() == components@[i as int]);
                lemma_selected_size_nonneg(components@.take(i as int), self.selected_components@);
            }
            if vec_contains_str(&self.selected_components, components[i].id.as_str()) {
                total = total.saturating_add(components[i].size_bytes);
            }
            i += 1;
        }
        proof {
            assert(components@.take(components@.len() as int) =~= components@);
        }
        self.total_size = total;
    }

    /// Adds a component id to the selection; selecting an id twice keeps a
    /// single occurrence.
    pub fn select_component(&mut self, id: &str)
        ensures
            seq_has_str(final(self).selected_components@, id@),
            old(self).has_selected(id@) ==> *final(self) == *old(self),
            !old(self).has_selected(id@)
                ==> final(self).selected_components@.len() == old(self).selected_components@.len() + 1,
            !old(self).has_selected(id@) ==> final(self).selected_components@.last()@ == id@,
            !old(self).has_selected(id@)
                ==> forall|j: int|
                    0 <= j < old(self).selected_components@.len()
                        ==> final(self).selected_components@[j] == old(self).selected_components@[j],
            final(self).install_path == old(self).install_path,
            final(self).spec_total_size() == old(self).spec_total_size(),
            forall|other: Seq<char>|
                old(self).has_selected(other) ==> final(self).has_selected(other),
    {
        if !vec_contains_str(&self.selected_components, id) {
            self.selected_components.push(id.to_owned());
            proof {
                let pre = old(self).selected_components@;
                let post = self.selected_components@;
                assert(post[post.len() - 1]@ == id@);
                assert forall|other: Seq<char>| seq_has_str(pre, other) implies seq_has_str(
                    post,
                    other,
                ) by {
                    let i = choose|i: int| 0 <= i < pre.len() && pre[i]@ == other;
                    assert(post[i]@ == other);
                }
            }
        } else {
            proof {
                let pre = self.selected_components@;
                let i = choose|i: int| 0 <= i < pre.len() && pre[i]@ == id@;
                assert(seq_has_str(pre, id@));
            }
        }
    }

    /// The id is in the selection.
    pub open spec fn has_selected(&self, id: Seq<char>) -> bool {
        seq_has_str(self.selected_components@, id)
    }

    /// Removes a component id from the selection, unless the catalog marks
    /// it required: deselecting a required component is a no-op and it
    /// remains selected.
    pub fn deselect_component(&mut self, components: &Vec<ComponentInfo>, id: &str)
        ensures
            is_required_id(components@, id@) ==> *final(self) == *old(self),
            !is_required_id(components@, id@) ==> !final(self).has_selected(id@),
            !is_required_id(components@, id@)
                ==> final(self).selected_components@ == old(self).selected_components@.filter(
                |s: String| s@ != id@,
            ),
            final(self).install_path == old(self).install_path,
            final(self).spec_total_size() == old(self).spec_total_size(),
            selection_wf(components@, old(self).selected_components@) ==> selection_wf(
                components@,
                final(self).selected_components@,
            ),
    {
        if catalog_requires(components, id) {
            return ;
        }
        let mut kept: Vec<String> = Vec::new();
        let mut i: usize = 0;
        while i < self.selected_components.len()
            invariant
                0 <= i <= self.selected_components@.len(),
                kept@ == self.selected_components@.take(i as int).filter(|s: String| s@ != id@),
            decreases self.selected_components@.len() - i,
        {
            proof {
                assert(self.selected_components@.take(i + 1).drop_last() =~= self
                    .selected_components@
                    .take(i as int));
                assert(self.selected_components@.take(i + 1).last() == self
                    .selected_components@[i as int]);
                reveal_with_fuel(Seq::filter, 2);
            }
            if !str_eq(self.selected_components[i].as_str(), id) {
                kept.push(self.selected_components[i].clone());
            }
            i += 1;
        }
        proof {
            assert(self.selected_components@.take(self.selected_components@.len() as int) =~= self
                .selected_components@);
        }
        self.selected_components = kept;
        proof {
            let pred = |s: String| s@ != id@;
            let f = old(self).selected_components@.filter(pred);
            assert(self.selected_components@ == f);
            assert forall|k: int| 0 <= k < f.len() implies f[k]@ != id@ by {
                old(self).selected_components@.lemma_filter_pred(pred, k);
            }
            let pre = old(self).selected_components@;
            assert forall|other: Seq<char>|
                other != id@ && seq_has_str(pre, other) implies seq_has_str(f, other) by {
                let i = choose|i: int| 0 <= i < pre.len() && pre[i]@ == other;
                pre.lemma_filter_contains(pred, i);
                assert(f.contains(pre[i]));
                let k = choose|k: int| 0 <= k < f.len() && f[k] == pre[i];
                assert(f[k]@ == other);
            }
            if selection_wf(components@, pre) {
                assert forall|i: int|
                    0 <= i < components@.len() && components@[i].required implies seq_has_str(
                    f,
                    #[trigger] components@[i].id@,
                ) by {
                    assert(seq_has_str(pre, components@[i].id@));
                    if components@[i].id@ == id@ {
                        assert(0 <= i < components@.len() && components@[i].id@ == id@
                            && components@[i].required);
                        assert(is_required_id(components@, id@));
                    }
                }
            }
        }
    }

    /// Validates the configuration before a pipeline is built.
    ///
    /// Fails exactly when the selection is empty (a configuration error) or
    /// the install path is not absolute (an invalid path).
    pub fn validate(&self) -> (r: InstallerResult<()>)
        ensures
            r is Ok <==> (self.selected_components@.len() > 0 && is_absolute_path(
                self.install_path@,
            )),
            r matches Err(e) ==> if self.selected_components@.len() == 0 {
                e matches InstallerError::Config(_)
            } else {
                e matches InstallerError::InvalidPath(p) && p@ == self.install_path@
            },
    {
        if self.selected_components.len() == 0 {
            return Err(
                InstallerError::Config(
                    String::from_str("No components selected for installation"),
                ),
            );
        }
        if !path_is_absolute(self.install_path.as_str()) {
            return Err(InstallerError::InvalidPath(self.install_path.clone()));
        }
        Ok(())
    }

    /// The configured install path.
    pub fn install_path(&self) -> (r: &String)
        ensures
            r == self.install_path,
    {
        &self.install_path
    }

    /// Replaces the install path.
    pub fn set_install_path(&mut self, path: String)
        ensures
            *final(self) == (InstallerConfig { install_path: path, ..*old(self) }),
    {
        self.install_path = path;
    }

    /// The selected component ids.
    pub fn selected_components(&self) -> (r: &Vec<String>)
        ensures
            r == self.selected_components,
    {
        &self.selected_components
    }

    /// Replaces the selection wholesale.
    pub fn set_selected_components(&mut self, components: Vec<String>)
        ensures
            *final(self) == (InstallerConfig { selected_components: components, ..*old(self) }),
    {
        self.selected_components = components;
    }

    /// Whether the given component id is selected.
    pub fn is_component_selected(&self, component_id: &str) -> (r: bool)
        ensures
            r == self.has_selected(component_id@),
    {
        vec_contains_str(&self.selected_components, component_id)
    }

    /// The last computed total installation size.
    pub fn total_size(&self) -> (r: u64)
        ensures
            r == self.spec_total_size(),
    {
        self.total_size
    }

    /// Persists the configuration. This build keeps no configuration file;
    /// saving validates the configuration and reports the outcome.
    pub fn save(&self) -> (r: InstallerResult<()>)
        ensures
            r is Ok <==> (self.selected_components@.len() > 0 && is_absolute_path(
                self.install_path@,
            )),
    {
        self.validate()
    }

    /// Loads a persisted configuration. This build keeps no configuration
    /// file, so loading always reports that none was found.
    pub fn load() -> (r: InstallerResult<InstallerConfig>)
        ensures
            r is Err,
    {
        Err(InstallerError::Config(String::from_str("Config file not found")))
    }
}

/// Installation configuration management: what any configuration store
/// offers the rest of the installer.
pub trait ConfigManager {
    /// The configured install path.
    spec fn spec_install_path(&self) -> Seq<char>;

    /// The selected component ids.
    spec fn spec_selected(&self) -> Seq<String>;

    /// The stored total installation size.
    spec fn spec_stored_total(&self) -> u64;

    /// The installation path.
    fn install_path(&self) -> (r: &String)
        ensures
            r@ == self.spec_install_path(),
    ;

    /// Replaces the installation path.
    fn set_install_path(&mut self, path: String)
        ensures
            final(self).spec_install_path() == path@,
            final(self).spec_selected() == old(self).spec_selected(),
    ;

    /// The selected components.
    fn selected_components(&self) -> (r: &Vec<String>)
        ensures
            r@ == self.spec_selected(),
    ;

    /// Replaces the selection wholesale.
    fn set_selected_components(&mut self, components: Vec<String>)
        ensures
            final(self).spec_selected() == components@,
            final(self).spec_install_path() == old(self).spec_install_path(),
    ;

    /// Whether a component is selected.
    fn is_component_selected(&self, component_id: &str) -> (r: bool)
        ensures
            r == seq_has_str(self.spec_selected(), component_id@),
    ;

    /// The total installation size in bytes, as last computed.
    fn total_size(&self) -> (r: u64)
        ensures
            r == self.spec_stored_total(),
    ;

    /// Persists the configuration.
    fn save(&self) -> InstallerResult<()>;

    /// Loads a persisted configuration.
    fn load() -> InstallerResult<Self> where Self: Sized;
}

impl ConfigManager for InstallerConfig {
    open spec fn spec_install_path(&self) -> Seq<char> {
        self.install_path@
    }

    open spec fn spec_selected(&self) -> Seq<String> {
        self.selected_components@
    }

    open spec fn spec_stored_total(&self) -> u64 {
        self.total_size
    }

    fn install_path(&self) -> (r: &String) {
        InstallerConfig::install_path(self)
    }

    fn set_install_path(&mut self, path: String) {
        InstallerConfig::set_install_path(self, path);
    }

    fn selected_components(&self) -> (r: &Vec<String>) {
        InstallerConfig::selected_components(self)
    }

    fn set_selected_components(&mut self, components: Vec<String>) {
        InstallerConfig::set_selected_components(self, components);
    }

    fn is_component_selected(&self, component_id: &str) -> (r: bool) {
        InstallerConfig::is_component_selected(self, component_id)
    }

    fn total_size(&self) -> (r: u64) {
        InstallerConfig::total_size(self)
    }

    fn save(&self) -> InstallerResult<()> {
        InstallerConfig::save(self)
    }

    fn load() -> InstallerResult<InstallerConfig> {
        InstallerConfig::load()
    }
}

proof fn lemma_selected_size_nonneg(components: Seq<ComponentInfo>, selection: Seq<String>)
    ensures
        selected_size(components, selection) >= 0,
    decreases components.len(),
{
    if components.len() > 0 {
        lemma_selected_size_nonneg(components.drop_last(), selection);
    }
}

} // verus!
