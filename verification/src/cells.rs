//! The cells of an installed app: looking cells up by role, listing the clone
//! cells of a role, and collecting cell ids.
use vstd::prelude::*;
use crate::text::{contains_seq, str_contains, str_eq};

verus! {

broadcast use vstd::string::group_string_axioms;

/// Identifies a cell: the hash of its DNA and the key of its agent (raw hash bytes).
pub struct CellId {
    pub dna_hash: Vec<u8>,
    pub agent_pub_key: Vec<u8>,
}

#[verifier::ext_equal]
pub struct CellIdView {
    pub dna_hash: Seq<u8>,
    pub agent_pub_key: Seq<u8>,
}

impl View for CellId {
    type V = CellIdView;

    open spec fn view(&self) -> CellIdView {
        CellIdView { dna_hash: self.dna_hash@, agent_pub_key: self.agent_pub_key@ }
    }
}

impl CellId {
    /// A copy of this cell id.
    pub fn duplicate(&self) -> (r: CellId)
        ensures
            r@ == self@,
    {
        CellId { dna_hash: self.dna_hash.clone(), agent_pub_key: self.agent_pub_key.clone() }
    }
}

/// A cell created from a role of the app's manifest when the app was installed.
pub struct ProvisionedCell {
    pub cell_id: CellId,
    pub name: String,
}

/// A cell cloned from one of the app's roles after installation.
pub struct ClonedCell {
    pub cell_id: CellId,
    pub clone_id: String,
    pub name: String,
    pub enabled: bool,
}

/// A role whose cell has not been created yet.
pub struct StemCell {
    pub original_dna_hash: Vec<u8>,
    pub name: Option<String>,
}

/// What the conductor reports of one cell of an app.
pub enum CellInfo {
    Provisioned(ProvisionedCell),
    Cloned(ClonedCell),
    Stem(StemCell),
}

/// The cells of one role of an app.
pub struct RoleCells {
    pub role_name: String,
    pub cells: Vec<CellInfo>,
}

/// The cells of an app, by role. The conductor never reports a role twice.
pub struct CellInfoMap {
    pub roles: Vec<RoleCells>,
}

/// What the conductor reports of an installed app.
pub struct AppInfo {
    pub installed_app_id: String,
    pub cell_info: CellInfoMap,
    pub agent_pub_key: Vec<u8>,
}

/// Errors met when a role or a clone is looked up.
#[derive(Debug)]
pub enum CellLookupError {
    /// The app has no role of that name.
    UnknownRole(String),
    /// The first cell of the role is not a provisioned cell.
    NotProvisioned(String),
    /// The role has no clone cell of that name.
    UnknownClone { role_name: String, clone_name: String },
}

/// The id of a cell, when it has one (a stem cell has none).
pub open spec fn cell_id_of(info: CellInfo) -> Option<CellIdView> {
    match info {
        CellInfo::Provisioned(c) => Some(c.cell_id@),
        CellInfo::Cloned(c) => Some(c.cell_id@),
        CellInfo::Stem(_) => None,
    }
}

/// The ids of the cells in `cells`, in order, stem cells left out.
pub open spec fn cell_ids_of(cells: Seq<CellInfo>) -> Seq<CellIdView>
    decreases cells.len(),
{
    if cells.len() == 0 {
        Seq::empty()
    } else {
        let rest = cell_ids_of(cells.drop_last());
        match cell_id_of(cells.last()) {
            Some(id) => rest.push(id),
            None => rest,
        }
    }
}

/// The ids of all cells of all roles, role after role.
pub open spec fn all_cell_ids_of(roles: Seq<RoleCells>) -> Seq<CellIdView>
    decreases roles.len(),
{
    if roles.len() == 0 {
        Seq::empty()
    } else {
        all_cell_ids_of(roles.drop_last()) + cell_ids_of(roles.last().cells@)
    }
}

/// The position of the first entry of `roles` named `role`, if any.
pub open spec fn role_position(roles: Seq<RoleCells>, role: Seq<char>) -> Option<int>
    decreases roles.len(),
{
    if roles.len() == 0 {
        None
    } else if roles[0].role_name@ == role {
        Some(0)
    } else {
        match role_position(roles.drop_first(), role) {
            Some(p) => Some(p + 1),
            None => None,
        }
    }
}

/// The clone cells among `cells`, in order.
pub open spec fn clones_of(cells: Seq<CellInfo>) -> Seq<ClonedCell>
    decreases cells.len(),
{
    if cells.len() == 0 {
        Seq::empty()
    } else {
        let rest = clones_of(cells.drop_last());
        match cells.last() {
            CellInfo::Cloned(c) => rest.push(c),
            _ => rest,
        }
    }
}

/// The position of the first clone named `name`, if any.
pub open spec fn clone_position(clones: Seq<ClonedCell>, name: Seq<char>) -> Option<int>
    decreases clones.len(),
{
    if clones.len() == 0 {
        None
    } else if clones[0].name@ == name {
        Some(0)
    } else {
        match clone_position(clones.drop_first(), name) {
            Some(p) => Some(p + 1),
            None => None,
        }
    }
}

/// The position of the first provisioned cell among `cells`, if any.
pub open spec fn provisioned_position(cells: Seq<CellInfo>) -> Option<int>
    decreases cells.len(),
{
    if cells.len() == 0 {
        None
    } else if cells[0] is Provisioned {
        Some(0)
    } else {
        match provisioned_position(cells.drop_first()) {
            Some(p) => Some(p + 1),
            None => None,
        }
    }
}

proof fn lemma_role_position_bounds(roles: Seq<RoleCells>, role: Seq<char>)
    ensures
        role_position(roles, role) matches Some(p) ==> 0 <= p < roles.len() && roles[p].role_name@ == role
            && forall|q: int| 0 <= q < p ==> roles[q].role_name@ != role,
        role_position(roles, role) is None ==> forall|q: int| 0 <= q < roles.len() ==> roles[q].role_name@ != role,
    decreases roles.len(),
{
    if roles.len() > 0 {
        lemma_role_position_bounds(roles.drop_first(), role);
        if roles[0].role_name@ != role {
            assert forall|q: int| 1 <= q < roles.len() implies roles[q] == roles.drop_first()[q - 1] by {}
        }
    }
}

proof fn lemma_clone_position_bounds(clones: Seq<ClonedCell>, name: Seq<char>)
    ensures
        clone_position(clones, name) matches Some(p) ==> 0 <= p < clones.len() && clones[p].name@ == name
            && forall|q: int| 0 <= q < p ==> clones[q].name@ != name,
        clone_position(clones, name) is None ==> forall|q: int| 0 <= q < clones.len() ==> clones[q].name@ != name,
    decreases clones.len(),
{
    if clones.len() > 0 {
        lemma_clone_position_bounds(clones.drop_first(), name);
        if clones[0].name@ != name {
            assert forall|q: int| 1 <= q < clones.len() implies clones[q] == clones.drop_first()[q - 1] by {}
        }
    }
}

proof fn lemma_provisioned_position_bounds(cells: Seq<CellInfo>)
    ensures
        provisioned_position(cells) matches Some(p) ==> 0 <= p < cells.len() && cells[p] is Provisioned
            && forall|q: int| 0 <= q < p ==> !(cells[q] is Provisioned),
        provisioned_position(cells) is None ==> forall|q: int| 0 <= q < cells.len() ==> !(cells[q] is Provisioned),
    decreases cells.len(),
{
    if cells.len() > 0 {
        lemma_provisioned_position_bounds(cells.drop_first());
        if !(cells[0] is Provisioned) {
            assert forall|q: int| 1 <= q < cells.len() implies cells[q] == cells.drop_first()[q - 1] by {}
        }
    }
}

/// The id of a cell, when it has one.
pub fn cell_id_from_cell_info(cell_info: &CellInfo) -> (r: Option<CellId>)
    ensures
        match r {
            Some(id) => cell_id_of(*cell_info) == Some(id@),
            None => cell_id_of(*cell_info) is None,
        },
{
    match cell_info {
        CellInfo::Provisioned(c) => Some(c.cell_id.duplicate()),
        CellInfo::Cloned(c) => Some(c.cell_id.duplicate()),
        CellInfo::Stem(_) => None,
    }
}

/// The ids of all cells of an app (stem cells left out), role after role.
pub fn all_cell_ids(app_info: &AppInfo) -> (r: Vec<CellId>)
    ensures
        id_views(r@) == all_cell_ids_of(app_info.cell_info.roles@),
{
    let roles = &app_info.cell_info.roles;
    let mut out: Vec<CellId> = Vec::new();
    let mut i: usize = 0;
    while i < roles.len()
        invariant
            i <= roles.len(),
            id_views(out@) == all_cell_ids_of(roles@.take(i as int)),
        decreases roles.len() - i,
    {
        let cells = &roles[i].cells;
        let ghost before = id_views(out@);
        let mut j: usize = 0;
        while j < cells.len()
            invariant
                j <= cells.len(),
                id_views(out@) == before + cell_ids_of(cells@.take(j as int)),
            decreases cells.len() - j,
        {
            assert(cells@.take(j + 1).drop_last() =~= cells@.take(j as int));
            assert(cells@.take(j + 1).last() == cells@[j as int]);
            let ghost prev = out@;
            match cell_id_from_cell_info(&cells[j]) {
                Some(id) => {
                    out.push(id);
                    assert(id_views(out@) =~= id_views(prev).push(id@));
                },
                None => {},
            }
            j = j + 1;
        }
        assert(cells@.take(cells.len() as int) =~= cells@);
        assert(roles@.take(i + 1).drop_last() =~= roles@.take(i as int));
        i = i + 1;
    }
    assert(roles@.take(roles.len() as int) =~= roles@);
    out
}

impl CellInfoMap {
    /// The cells of role `role_name`, if the app has that role.
    pub open spec fn cells_of_role(&self, role_name: Seq<char>) -> Option<Seq<CellInfo>> {
        match role_position(self.roles@, role_name) {
            Some(p) => Some(self.roles@[p].cells@),
            None => None,
        }
    }

    /// Position of role `role_name` in the map.
    fn find_role(&self, role_name: &str) -> (r: Option<usize>)
        ensures
            match r {
                Some(p) => role_position(self.roles@, role_name@) == Some(p as int),
                None => role_position(self.roles@, role_name@) is None,
            },
    {
        proof {
            lemma_role_position_bounds(self.roles@, role_name@);
        }
        let mut i: usize = 0;
        while i < self.roles.len()
            invariant
                i <= self.roles.len(),
                forall|q: int| 0 <= q < i ==> self.roles@[q].role_name@ != role_name@,
                role_position(self.roles@, role_name@) matches Some(p) ==> i <= p,
            decreases self.roles.len() - i,
        {
            proof {
                lemma_role_position_bounds(self.roles@, role_name@);
            }
            if str_eq(self.roles[i].role_name.as_str(), role_name) {
                return Some(i);
            }
            i = i + 1;
        }
        None
    }

    /// The cell of role `role_name`: the role's first cell, which must be a provisioned cell.
    pub fn cell(&self, role_name: &str) -> (r: Result<CellId, CellLookupError>)
        requires
            self.cells_of_role(role_name@) matches Some(cells) ==> cells.len() > 0,
        ensures
            match self.cells_of_role(role_name@) {
                None => r matches Err(CellLookupError::UnknownRole(n)) && n@ == role_name@,
                Some(cells) => match cells[0] {
                    CellInfo::Provisioned(c) => r matches Ok(id) && id@ == c.cell_id@,
                    _ => r matches Err(CellLookupError::NotProvisioned(n)) && n@ == role_name@,
                },
            },
    {
        proof {
            lemma_role_position_bounds(self.roles@, role_name@);
        }
        match self.find_role(role_name) {
            None => Err(CellLookupError::UnknownRole(role_name.to_owned())),
            Some(p) => match &self.roles[p].cells[0] {
                CellInfo::Provisioned(c) => Ok(c.cell_id.duplicate()),
                _ => Err(CellLookupError::NotProvisioned(role_name.to_owned())),
            },
        }
    }

    /// The clone cells of role `role_name`, in order.
    pub fn clone_cells(&self, role_name: &str) -> (r: Result<Vec<ClonedCellSummary>, CellLookupError>)
        ensures
            match self.cells_of_role(role_name@) {
                None => r matches Err(CellLookupError::UnknownRole(n)) && n@ == role_name@,
                Some(cells) => r matches Ok(v) && summary_views(v@)
                    == clone_summaries(clones_of(cells)),
            },
    {
        proof {
            lemma_role_position_bounds(self.roles@, role_name@);
        }
        match self.find_role(role_name) {
            None => Err(CellLookupError::UnknownRole(role_name.to_owned())),
            Some(p) => {
                let cells = &self.roles[p].cells;
                let mut out: Vec<ClonedCellSummary> = Vec::new();
                let mut j: usize = 0;
                while j < cells.len()
                    invariant
                        j <= cells.len(),
                        summary_views(out@)
                            == clone_summaries(clones_of(cells@.take(j as int))),
                    decreases cells.len() - j,
                {
                    assert(cells@.take(j + 1).drop_last() =~= cells@.take(j as int));
                    assert(cells@.take(j + 1).last() == cells@[j as int]);
                    let ghost prev = out@;
                    match &cells[j] {
                        CellInfo::Cloned(c) => {
                            out.push(ClonedCellSummary { cell_id: c.cell_id.duplicate(), name: c.name.clone() });
                            assert(summary_views(out@) =~= summary_views(prev).push(summary_of(*c)));
                            assert(clone_summaries(clones_of(cells@.take(j + 1))) =~= clone_summaries(clones_of(cells@.take(j as int))).push(summary_of(*c)));
                        },
                        _ => {},
                    }
                    j = j + 1;
                }
                assert(cells@.take(cells.len() as int) =~= cells@);
                Ok(out)
            },
        }
    }

    /// The cell id of the clone named `clone_name` of role `role_name` (the first such clone).
    pub fn clone_cell(&self, role_name: &str, clone_name: &str) -> (r: Result<CellId, CellLookupError>)
        ensures
            match self.cells_of_role(role_name@) {
                None => r matches Err(CellLookupError::UnknownRole(n)) && n@ == role_name@,
                Some(cells) => match clone_position(clones_of(cells), clone_name@) {
                    Some(p) => r matches Ok(id) && id@ == clones_of(cells)[p].cell_id@,
                    None => r matches Err(CellLookupError::UnknownClone { role_name: rn, clone_name: cn })
                        && rn@ == role_name@ && cn@ == clone_name@,
                },
            },
    {
        let res = self.clone_cells(role_name);
        let clones = match res {
            Err(e) => return Err(e),
            Ok(v) => v,
        };
        let ghost cells = self.cells_of_role(role_name@)->Some_0;
        let ghost all = clones_of(cells);
        proof {
            assert(self.cells_of_role(role_name@) == Some(cells));
            assert(summary_views(clones@) == clone_summaries(all));
            assert(summary_views(clones@).len() == clones@.len());
            assert(clone_summaries(all).len() == all.len());
            lemma_clone_position_bounds(all, clone_name@);
            assert(clones@.len() == all.len());
            assert forall|q: int| 0 <= q < all.len() implies clones@[q]@ == #[trigger] summary_of(all[q]) by {
                assert(summary_views(clones@)[q] == clone_summaries(all)[q]);
            }
        }
        let mut k: usize = 0;
        while k < clones.len()
            invariant
                k <= clones.len(),
                self.cells_of_role(role_name@) == Some(cells),
                all == clones_of(cells),
                clones@.len() == all.len(),
                forall|q: int| 0 <= q < all.len() ==> clones@[q]@ == #[trigger] summary_of(all[q]),
                forall|q: int| 0 <= q < k ==> all[q].name@ != clone_name@,
                clone_position(all, clone_name@) matches Some(p) ==> k <= p,
            decreases clones.len() - k,
        {
            proof {
                lemma_clone_position_bounds(all, clone_name@);
            }
            assert(clones@[k as int]@ == summary_of(all[k as int]));
            if str_eq(clones[k].name.as_str(), clone_name) {
                assert(all[k as int].name@ == clone_name@);
                assert(clone_position(all, clone_name@) == Some(k as int));
                assert(clones@[k as int].cell_id@ == all[k as int].cell_id@);
                let id = clones[k].cell_id.duplicate();
                return Ok(id);
            }
            k = k + 1;
        }
        Err(CellLookupError::UnknownClone { role_name: role_name.to_owned(), clone_name: clone_name.to_owned() })
    }
}

/// A role of an app paired with the id of its provisioned cell.
pub struct RoleCellId {
    pub role_name: String,
    pub cell_id: CellId,
}

#[verifier::ext_equal]
pub struct RoleCellIdView {
    pub role_name: Seq<char>,
    pub cell_id: CellIdView,
}

impl View for RoleCellId {
    type V = RoleCellIdView;

    open spec fn view(&self) -> RoleCellIdView {
        RoleCellIdView { role_name: self.role_name@, cell_id: self.cell_id@ }
    }
}

/// The views of a sequence of role/cell pairs.
pub open spec fn role_cell_views(v: Seq<RoleCellId>) -> Seq<RoleCellIdView> {
    v.map_values(|c: RoleCellId| c@)
}

/// For each role that has a provisioned cell, the role paired with the id of
/// its first provisioned cell, role after role.
pub open spec fn provisioned_cells_of(roles: Seq<RoleCells>) -> Seq<RoleCellIdView>
    decreases roles.len(),
{
    if roles.len() == 0 {
        Seq::empty()
    } else {
        let rest = provisioned_cells_of(roles.drop_last());
        let last = roles.last();
        match provisioned_position(last.cells@) {
            Some(p) => match last.cells@[p] {
                CellInfo::Provisioned(c) => rest.push(RoleCellIdView { role_name: last.role_name@, cell_id: c.cell_id@ }),
                _ => rest,
            },
            None => rest,
        }
    }
}

/// No role of the list occurs twice (as the conductor reports them).
pub open spec fn role_names_distinct(roles: Seq<RoleCells>) -> bool {
    forall|i: int, j: int| 0 <= i < j < roles.len() ==> roles[i].role_name@ != roles[j].role_name@
}

proof fn lemma_provisioned_cells_names(roles: Seq<RoleCells>)
    ensures
        forall|k: int| 0 <= k < provisioned_cells_of(roles).len() ==> exists|j: int|
            0 <= j < roles.len() && (#[trigger] provisioned_cells_of(roles)[k]).role_name == roles[j].role_name@,
        role_names_distinct(roles) ==> forall|k1: int, k2: int|
            0 <= k1 < k2 < provisioned_cells_of(roles).len() ==> (#[trigger] provisioned_cells_of(roles)[k1]).role_name
                != (#[trigger] provisioned_cells_of(roles)[k2]).role_name,
    decreases roles.len(),
{
    if roles.len() > 0 {
        let init = roles.drop_last();
        lemma_provisioned_cells_names(init);
        let rest = provisioned_cells_of(init);
        let all = provisioned_cells_of(roles);
        assert forall|k: int| 0 <= k < rest.len() implies exists|j: int|
            0 <= j < roles.len() && (#[trigger] rest[k]).role_name == roles[j].role_name@ by {
            let j = choose|j: int| 0 <= j < init.len() && rest[k].role_name == init[j].role_name@;
            assert(roles[j] == init[j]);
        }
        if role_names_distinct(roles) {
            assert(role_names_distinct(init)) by {
                assert forall|i: int, j: int| 0 <= i < j < init.len() implies init[i].role_name@ != init[j].role_name@ by {
                    assert(init[i] == roles[i] && init[j] == roles[j]);
                }
            }
            assert forall|k: int| 0 <= k < rest.len() implies rest[k].role_name != roles.last().role_name@ by {
                let j = choose|j: int| 0 <= j < init.len() && rest[k].role_name == init[j].role_name@;
                assert(init[j] == roles[j]);
            }
        }
        assert forall|k: int| 0 <= k < rest.len() implies all[k] == rest[k] by {}
    }
}

/// The position of the first app whose id contains `fragment`, if any.
pub open spec fn app_position_containing(apps: Seq<AppInfo>, fragment: Seq<char>) -> Option<int>
    decreases apps.len(),
{
    if apps.len() == 0 {
        None
    } else if contains_seq(apps[0].installed_app_id@, fragment) {
        Some(0)
    } else {
        match app_position_containing(apps.drop_first(), fragment) {
            Some(p) => Some(p + 1),
            None => None,
        }
    }
}

/// The cells that an earlier installation of an app already created: taken
/// from the first installed app whose id contains `fragment`, one entry per
/// role that has a provisioned cell. Empty when no installed app matches.
pub open spec fn existing_cells_spec(apps: Seq<AppInfo>, fragment: Seq<char>) -> Seq<RoleCellIdView> {
    match app_position_containing(apps, fragment) {
        Some(p) => provisioned_cells_of(apps[p].cell_info.roles@),
        None => Seq::empty(),
    }
}

proof fn lemma_app_position_bounds(apps: Seq<AppInfo>, fragment: Seq<char>)
    ensures
        app_position_containing(apps, fragment) matches Some(p) ==> 0 <= p < apps.len()
            && contains_seq(apps[p].installed_app_id@, fragment)
            && forall|q: int| 0 <= q < p ==> !contains_seq(apps[q].installed_app_id@, fragment),
        app_position_containing(apps, fragment) is None ==> forall|q: int| 0 <= q < apps.len()
            ==> !contains_seq(apps[q].installed_app_id@, fragment),
    decreases apps.len(),
{
    if apps.len() > 0 {
        lemma_app_position_bounds(apps.drop_first(), fragment);
        if !contains_seq(apps[0].installed_app_id@, fragment) {
            assert forall|q: int| 1 <= q < apps.len() implies apps[q] == apps.drop_first()[q - 1] by {}
        }
    }
}

/// The first provisioned cell among `cells`, if any.
fn first_provisioned(cells: &Vec<CellInfo>) -> (r: Option<usize>)
    ensures
        match r {
            Some(p) => provisioned_position(cells@) == Some(p as int),
            None => provisioned_position(cells@) is None,
        },
{
    proof {
        lemma_provisioned_position_bounds(cells@);
    }
    let mut j: usize = 0;
    while j < cells.len()
        invariant
            j <= cells.len(),
            forall|q: int| 0 <= q < j ==> !(cells@[q] is Provisioned),
            provisioned_position(cells@) matches Some(p) ==> j <= p,
        decreases cells.len() - j,
    {
        proof {
            lemma_provisioned_position_bounds(cells@);
        }
        if let CellInfo::Provisioned(_) = &cells[j] {
            return Some(j);
        }
        j = j + 1;
    }
    proof {
        lemma_provisioned_position_bounds(cells@);
    }
    None
}

/// The position of the first installed app whose id contains `fragment`.
fn find_app_containing(installed_apps: &Vec<AppInfo>, fragment: &str) -> (r: Option<usize>)
    ensures
        match r {
            Some(p) => app_position_containing(installed_apps@, fragment@) == Some(p as int),
            None => app_position_containing(installed_apps@, fragment@) is None,
        },
{
    proof {
        lemma_app_position_bounds(installed_apps@, fragment@);
    }
    let mut i: usize = 0;
    while i < installed_apps.len()
        invariant
            i <= installed_apps.len(),
            forall|q: int| 0 <= q < i ==> !contains_seq(installed_apps@[q].installed_app_id@, fragment@),
            app_position_containing(installed_apps@, fragment@) matches Some(p) ==> i <= p,
        decreases installed_apps.len() - i,
    {
        proof {
            lemma_app_position_bounds(installed_apps@, fragment@);
        }
        if str_contains(installed_apps[i].installed_app_id.as_str(), fragment) {
            return Some(i);
        }
        i = i + 1;
    }
    None
}

/// The provisioned cells of the first installed app whose id contains
/// `fragment`, by role (the first provisioned cell of each role).
pub fn existing_cells(installed_apps: &Vec<AppInfo>, fragment: &str) -> (r: Vec<RoleCellId>)
    ensures
        role_cell_views(r@) == existing_cells_spec(installed_apps@, fragment@),
        (forall|a: int| 0 <= a < installed_apps@.len() ==> role_names_distinct(#[trigger] installed_apps@[a].cell_info.roles@))
            ==> forall|k1: int, k2: int| 0 <= k1 < k2 < r@.len() ==> (#[trigger] r@[k1]).role_name@ != (#[trigger] r@[k2]).role_name@,
{
    let found = find_app_containing(installed_apps, fragment);
    let mut out: Vec<RoleCellId> = Vec::new();
    match found {
        None => {
            assert(role_cell_views(out@) =~= Seq::<RoleCellIdView>::empty());
            out
        },
        Some(p) => {
            proof {
                lemma_app_position_bounds(installed_apps@, fragment@);
            }
            let roles = &installed_apps[p].cell_info.roles;
            let mut k: usize = 0;
            while k < roles.len()
                invariant
                    k <= roles.len(),
                    role_cell_views(out@) == provisioned_cells_of(roles@.take(k as int)),
                decreases roles.len() - k,
            {
                assert(roles@.take(k + 1).drop_last() =~= roles@.take(k as int));
                assert(roles@.take(k + 1).last() == roles@[k as int]);
                let ghost prev = out@;
                proof {
                    lemma_provisioned_position_bounds(roles@[k as int].cells@);
                }
                match first_provisioned(&roles[k].cells) {
                    Some(q) => {
                        if let CellInfo::Provisioned(c) = &roles[k].cells[q] {
                            out.push(RoleCellId { role_name: roles[k].role_name.clone(), cell_id: c.cell_id.duplicate() });
                            assert(role_cell_views(out@) =~= role_cell_views(prev).push(
                                RoleCellIdView { role_name: roles@[k as int].role_name@, cell_id: c.cell_id@ }));
                        }
                    },
                    None => {},
                }
                k = k + 1;
            }
            assert(roles@.take(roles.len() as int) =~= roles@);
            proof {
                lemma_provisioned_cells_names(roles@);
                let pv = provisioned_cells_of(roles@);
                assert forall|k1: int, k2: int| 0 <= k1 < k2 < out@.len() && role_names_distinct(roles@) implies
                    (#[trigger] out@[k1]).role_name@ != (#[trigger] out@[k2]).role_name@ by {
                    assert(role_cell_views(out@)[k1] == out@[k1]@);
                    assert(role_cell_views(out@)[k2] == out@[k2]@);
                    assert(pv[k1].role_name != pv[k2].role_name);
                }
                assert(installed_apps@[p as int].cell_info.roles@ == roles@);
            }
            out
        },
    }
}

/// The part of a clone cell that lookups hand out: its id and its name.
pub struct ClonedCellSummary {
    pub cell_id: CellId,
    pub name: String,
}

#[verifier::ext_equal]
pub struct ClonedCellSummaryView {
    pub cell_id: CellIdView,
    pub name: Seq<char>,
}

impl View for ClonedCellSummary {
    type V = ClonedCellSummaryView;

    open spec fn view(&self) -> ClonedCellSummaryView {
        ClonedCellSummaryView { cell_id: self.cell_id@, name: self.name@ }
    }
}

/// The views of a sequence of cell ids.
pub open spec fn id_views(ids: Seq<CellId>) -> Seq<CellIdView> {
    ids.map_values(|c: CellId| c@)
}

/// The views of a sequence of clone summaries.
pub open spec fn summary_views(v: Seq<ClonedCellSummary>) -> Seq<ClonedCellSummaryView> {
    v.map_values(|c: ClonedCellSummary| c@)
}

/// The summaries of a sequence of clone cells.
pub open spec fn clone_summaries(v: Seq<ClonedCell>) -> Seq<ClonedCellSummaryView> {
    v.map_values(|c: ClonedCell| summary_of(c))
}

/// The summary of a clone cell.
pub open spec fn summary_of(c: ClonedCell) -> ClonedCellSummaryView {
    ClonedCellSummaryView { cell_id: c.cell_id@, name: c.name@ }
}

/// Law: the clone cell that `clone_cell` finds by name is the first entry of
/// `clone_cells` with that name, with the same cell id; and when `clone_cell`
/// reports the clone unknown, `clone_cells` lists no clone of that name.
pub proof fn clone_cell_agrees_with_clone_cells(cells: Seq<CellInfo>, name: Seq<char>)
    ensures
        match clone_position(clones_of(cells), name) {
            Some(p) => 0 <= p < clone_summaries(clones_of(cells)).len()
                && clone_summaries(clones_of(cells))[p] == (ClonedCellSummaryView {
                    cell_id: clones_of(cells)[p].cell_id@,
                    name,
                })
                && forall|q: int| 0 <= q < p ==> (#[trigger] clone_summaries(clones_of(cells))[q]).name != name,
            None => forall|q: int| 0 <= q < clone_summaries(clones_of(cells)).len()
                ==> (#[trigger] clone_summaries(clones_of(cells))[q]).name != name,
        },
{
    lemma_clone_position_bounds(clones_of(cells), name);
}

} // verus!
