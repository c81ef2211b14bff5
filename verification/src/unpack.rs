//! From the entries of a zip archive to the file-system actions that install
//! them, with the guarantee that no action leaves the install directory.

use vstd::prelude::*;
use vstd::string::StrSliceExecFns;

use crate::error::Error;
use crate::platform::HostFamily;
use crate::text::ends_with;

verus! {

/// The texts of a list of strings.
pub open spec fn texts(v: Seq<String>) -> Seq<Seq<char>> {
    v.map_values(|s: String| s@)
}

/// One entry of a zip archive, as plain values.
#[derive(Debug, PartialEq, Eq)]
pub struct ZipEntry {
    /// The name under which the archive stores the entry.
    pub name: String,
    /// The sanitized relative path of the entry, one component per element.
    pub path: Vec<String>,
    /// The Unix permission bits that the archive records, if any.
    pub unix_mode: Option<u32>,
    /// The contents; empty for a directory.
    pub data: Vec<u8>,
}

/// What a zip entry is to the contracts.
pub struct ZipEntryView {
    pub name: Seq<char>,
    pub path: Seq<Seq<char>>,
    pub unix_mode: Option<u32>,
    pub data: Seq<u8>,
}

impl View for ZipEntry {
    type V = ZipEntryView;

    open spec fn view(&self) -> ZipEntryView {
        ZipEntryView {
            name: self.name@,
            path: texts(self.path@),
            unix_mode: self.unix_mode,
            data: self.data@,
        }
    }
}

/// One step of an extraction. Paths are relative to the install directory,
/// one component per element.
#[derive(Debug, PartialEq, Eq)]
pub enum FsAction {
    /// Create the directory and all its missing ancestors; then, if `mode` is
    /// present, set its permission bits.
    CreateDir { path: Vec<String>, mode: Option<u32> },
    /// Create the missing ancestors, write the file, replacing any earlier
    /// one; then, if `mode` is present, set its permission bits.
    WriteFile { path: Vec<String>, data: Vec<u8>, mode: Option<u32> },
}

/// What an action is to the contracts.
pub enum ActionView {
    CreateDir { path: Seq<Seq<char>>, mode: Option<u32> },
    WriteFile { path: Seq<Seq<char>>, data: Seq<u8>, mode: Option<u32> },
}

impl ActionView {
    /// The relative path that the action touches.
    pub open spec fn target(self) -> Seq<Seq<char>> {
        match self {
            ActionView::CreateDir { path, .. } => path,
            ActionView::WriteFile { path, .. } => path,
        }
    }
}

impl View for FsAction {
    type V = ActionView;

    open spec fn view(&self) -> ActionView {
        match self {
            FsAction::CreateDir { path, mode } => ActionView::CreateDir {
                path: texts(path@),
                mode: *mode,
            },
            FsAction::WriteFile { path, data, mode } => ActionView::WriteFile {
                path: texts(path@),
                data: data@,
                mode: *mode,
            },
        }
    }
}

/// Whether a character cannot stand inside a file name on the host: the path
/// separators, the NUL character and, on Windows, the colon of drive and
/// stream names.
pub open spec fn is_reserved_char(c: char, family: HostFamily) -> bool {
    ||| c == '/'
    ||| c == '\0'
    ||| family == HostFamily::Windows && (c == '\\' || c == ':')
}

/// Whether a path component is an ordinary name: not empty, neither `.` nor
/// `..`, and free of reserved characters.
pub open spec fn is_plain_component(c: Seq<char>, family: HostFamily) -> bool {
    &&& c.len() > 0
    &&& c != seq!['.']
    &&& c != seq!['.', '.']
    &&& forall|i: int| 0 <= i < c.len() ==> !is_reserved_char(#[trigger] c[i], family)
}

/// Whether a relative path is made of ordinary names alone.
pub open spec fn is_contained(path: Seq<Seq<char>>, family: HostFamily) -> bool {
    forall|i: int| 0 <= i < path.len() ==> is_plain_component(#[trigger] path[i], family)
}

/// Whether an entry's name marks a directory: it ends with a slash.
pub open spec fn is_directory_name(name: Seq<char>) -> bool {
    name.len() > 0 && name.last() == '/'
}

/// The permission bits to set after an entry is written: those that the
/// archive records, on a host that has permission bits.
pub open spec fn mode_to_apply(unix_mode: Option<u32>, family: HostFamily) -> Option<u32> {
    if family.has_permission_bits() {
        unix_mode
    } else {
        None
    }
}

/// The action that installs an entry.
pub open spec fn action_for(entry: ZipEntryView, family: HostFamily) -> ActionView {
    if is_directory_name(entry.name) {
        ActionView::CreateDir { path: entry.path, mode: mode_to_apply(entry.unix_mode, family) }
    } else {
        ActionView::WriteFile {
            path: entry.path,
            data: entry.data,
            mode: mode_to_apply(entry.unix_mode, family),
        }
    }
}

/// What planning an entry yields: its action where the path stays inside the
/// install directory, an archive error where it does not.
pub open spec fn planned(entry: ZipEntryView, family: HostFamily) -> Result<ActionView, Error> {
    if is_contained(entry.path, family) {
        Ok(action_for(entry, family))
    } else {
        Err(Error::Archive)
    }
}

/// Whether a character separates the parts of a stored name: archives use
/// the slash and the backslash alike.
pub open spec fn is_separator(c: char) -> bool {
    c == '/' || c == '\\'
}

/// Whether a part of a stored name has a special meaning in a path: the empty
/// part, `.` and `..`.
pub open spec fn is_special_part(part: Seq<char>) -> bool {
    part.len() == 0 || part == seq!['.'] || part == seq!['.', '.']
}

/// The part as a list: empty where the part is special.
pub open spec fn kept(part: Seq<char>) -> Seq<Seq<char>> {
    if is_special_part(part) {
        Seq::empty()
    } else {
        seq![part]
    }
}

/// The ordinary parts of `current` followed by `name`, where `current` is the
/// part that was begun before `name`.
pub open spec fn parts_from(name: Seq<char>, current: Seq<char>) -> Seq<Seq<char>>
    decreases name.len(),
{
    if name.len() == 0 {
        kept(current)
    } else if is_separator(name[0]) {
        kept(current) + parts_from(name.drop_first(), Seq::empty())
    } else {
        parts_from(name.drop_first(), current.push(name[0]))
    }
}

/// The ordinary parts of a stored name: the name split at every separator,
/// without the parts that are empty, `.` or `..`.
pub open spec fn normal_parts(name: Seq<char>) -> Seq<Seq<char>> {
    parts_from(name, Seq::empty())
}

/// Whether a stored name means the same path on every host: it holds no NUL
/// and no colon, and does not begin with two separators.
pub open spec fn is_tame_name(name: Seq<char>) -> bool {
    &&& forall|i: int| 0 <= i < name.len() ==> #[trigger] name[i] != '\0' && name[i] != ':'
    &&& !(name.len() >= 2 && is_separator(name[0]) && is_separator(name[1]))
}

/// The ordinary parts of a name without NUL and colon are ordinary names on
/// every host.
pub proof fn lemma_parts_are_plain(name: Seq<char>, current: Seq<char>, family: HostFamily)
    requires
        forall|i: int| 0 <= i < name.len() ==> #[trigger] name[i] != '\0' && name[i] != ':',
        forall|i: int|
            0 <= i < current.len() ==> #[trigger] current[i] != '\0' && current[i] != ':'
                && !is_separator(current[i]),
    ensures
        is_contained(parts_from(name, current), family),
    decreases name.len(),
{
    assert(is_contained(kept(current), family)) by {
        if !is_special_part(current) {
            assert(kept(current)[0] == current);
            assert(is_plain_component(current, family));
        }
    }
    if name.len() == 0 {
    } else {
        let rest = name.drop_first();
        assert forall|i: int| 0 <= i < rest.len() implies #[trigger] rest[i] != '\0' && rest[i]
            != ':' by {
            assert(rest[i] == name[i + 1]);
        }
        if is_separator(name[0]) {
            lemma_parts_are_plain(rest, Seq::empty(), family);
            let head = kept(current);
            let tail = parts_from(rest, Seq::empty());
            assert forall|i: int| 0 <= i < (head + tail).len() implies is_plain_component(
                #[trigger] (head + tail)[i],
                family,
            ) by {
                if i < head.len() {
                    assert((head + tail)[i] == head[i]);
                } else {
                    assert((head + tail)[i] == tail[i - head.len()]);
                }
            }
        } else {
            lemma_parts_are_plain(rest, current.push(name[0]), family);
        }
    }
}

/// A tame name installs inside the install directory on every host.
pub proof fn lemma_tame_name_is_contained(name: Seq<char>, family: HostFamily)
    requires
        is_tame_name(name),
    ensures
        is_contained(normal_parts(name), family),
{
    lemma_parts_are_plain(name, Seq::empty(), family);
}

/// Where a relative path leads from the directory `base`, the way a host
/// resolves it component by component: `..` climbs to the parent, `.` and an
/// empty component stay, any other component descends.
pub open spec fn resolve(base: Seq<Seq<char>>, path: Seq<Seq<char>>) -> Seq<Seq<char>>
    decreases path.len(),
{
    if path.len() == 0 {
        base
    } else {
        let first = path[0];
        let next = if first == seq!['.', '.'] {
            if base.len() > 0 {
                base.drop_last()
            } else {
                base
            }
        } else if first == seq!['.'] || first.len() == 0 {
            base
        } else {
            base.push(first)
        };
        resolve(next, path.drop_first())
    }
}

/// A path of ordinary names never leaves the directory it starts from: from
/// any root it resolves to the root followed by the path's own components.
pub proof fn lemma_contained_path_stays_under_root(
    root: Seq<Seq<char>>,
    path: Seq<Seq<char>>,
    family: HostFamily,
)
    requires
        is_contained(path, family),
    ensures
        resolve(root, path) == root + path,
        root.is_prefix_of(resolve(root, path)),
    decreases path.len(),
{
    if path.len() == 0 {
        assert(root + path =~= root);
    } else {
        let first = path[0];
        let rest = path.drop_first();
        assert(is_plain_component(first, family));
        assert forall|i: int| 0 <= i < rest.len() implies is_plain_component(
            #[trigger] rest[i],
            family,
        ) by {
            assert(rest[i] == path[i + 1]);
        }
        lemma_contained_path_stays_under_root(root.push(first), rest, family);
        assert(root.push(first) + rest =~= root + path);
    }
    assert(root =~= (root + path).subrange(0, root.len() as int));
}

/// What stands at a path of the install directory, in the model of it that
/// the laws on plans speak of. Permission bits have no part in the model.
pub enum Node {
    Dir,
    File(Seq<u8>),
}

/// The directory `tree` with every missing proper ancestor of `path` added as
/// a directory.
pub open spec fn with_ancestors(tree: Map<Seq<Seq<char>>, Node>, path: Seq<Seq<char>>) -> Map<
    Seq<Seq<char>>,
    Node,
> {
    Map::new(
        |p: Seq<Seq<char>>|
            tree.contains_key(p) || (0 < p.len() < path.len() && p.is_prefix_of(path)),
        |p: Seq<Seq<char>>|
            if tree.contains_key(p) {
                tree[p]
            } else {
                Node::Dir
            },
    )
}

/// What an action that succeeds makes of the install directory.
pub open spec fn apply(tree: Map<Seq<Seq<char>>, Node>, action: ActionView) -> Map<
    Seq<Seq<char>>,
    Node,
> {
    match action {
        ActionView::CreateDir { path, .. } => with_ancestors(tree, path).insert(path, Node::Dir),
        ActionView::WriteFile { path, data, .. } => with_ancestors(tree, path).insert(
            path,
            Node::File(data),
        ),
    }
}

/// What the actions of a plan, taken in order and all succeeding, make of the
/// install directory.
pub open spec fn apply_all(tree: Map<Seq<Seq<char>>, Node>, plan: Seq<ActionView>) -> Map<
    Seq<Seq<char>>,
    Node,
>
    decreases plan.len(),
{
    if plan.len() == 0 {
        tree
    } else {
        apply(apply_all(tree, plan.drop_last()), plan.last())
    }
}

/// A plan carried out in an empty install directory leaves nothing there but
/// what the plan names: every path in the directory is the target of an action
/// or an ancestor of one, and every file is the target of a write.
pub proof fn lemma_plan_leaves_only_its_own(plan: Seq<ActionView>, p: Seq<Seq<char>>)
    requires
        apply_all(Map::empty(), plan).contains_key(p),
    ensures
        exists|k: int| 0 <= k < plan.len() && p.is_prefix_of((#[trigger] plan[k]).target()),
        apply_all(Map::empty(), plan)[p] is File ==> exists|k: int|
            0 <= k < plan.len() && (#[trigger] plan[k]) is WriteFile && plan[k].target() == p,
    decreases plan.len(),
{
    if plan.len() > 0 {
        let before = apply_all(Map::empty(), plan.drop_last());
        let last = plan.last();
        let after = apply_all(Map::empty(), plan);
        assert(after == apply(before, last));
        if p == last.target() {
            assert(plan[plan.len() - 1] == last);
            assert(p.is_prefix_of(last.target()));
        } else if before.contains_key(p) {
            lemma_plan_leaves_only_its_own(plan.drop_last(), p);
            let k = choose|k: int|
                0 <= k < plan.drop_last().len() && p.is_prefix_of(
                    (#[trigger] plan.drop_last()[k]).target(),
                );
            assert(plan[k] == plan.drop_last()[k]);
            assert(after[p] == before[p]);
            if after[p] is File {
                let w = choose|w: int|
                    0 <= w < plan.drop_last().len() && (#[trigger] plan.drop_last()[w]) is WriteFile
                        && plan.drop_last()[w].target() == p;
                assert(plan[w] == plan.drop_last()[w]);
            }
        } else {
            assert(plan[plan.len() - 1] == last);
            assert(p.is_prefix_of(last.target()));
            assert(after[p] is Dir);
        }
    }
}

/// Whether the stored name of an entry marks a directory.
pub fn names_directory(name: &str) -> (r: bool)
    ensures
        r == is_directory_name(name@),
{
    proof {
        reveal_strlit("/");
    }
    let r = ends_with(name, "/");
    proof {
        let slash = "/"@;
        if r {
            assert(slash[0] == name@.subrange(name@.len() - 1, name@.len() as int)[0]);
        } else if name@.len() > 0 && name@.last() == '/' {
            assert(slash =~= name@.subrange(name@.len() - 1, name@.len() as int));
        }
    }
    r
}

/// Whether a path component is an ordinary name on a host of the family.
pub fn is_plain(component: &str, family: HostFamily) -> (r: bool)
    ensures
        r == is_plain_component(component@, family),
{
    let n = component.unicode_len();
    if n == 0 {
        return false;
    }
    let mut only_dots = true;
    let mut i: usize = 0;
    while i < n
        invariant
            i <= n,
            n == component@.len(),
            forall|j: int| 0 <= j < i ==> !is_reserved_char(#[trigger] component@[j], family),
            only_dots <==> forall|j: int| 0 <= j < i ==> #[trigger] component@[j] == '.',
        decreases n - i,
    {
        let c = component.get_char(i);
        if c == '/' || c == '\0' {
            return false;
        }
        match family {
            HostFamily::Windows => {
                if c == '\\' || c == ':' {
                    return false;
                }
            },
            HostFamily::Unix => {},
        }
        if c != '.' {
            only_dots = false;
        }
        i += 1;
    }
    proof {
        let s = component@;
        if only_dots && n <= 2 {
            if n == 1 {
                assert(s =~= seq!['.']);
            } else {
                assert(s =~= seq!['.', '.']);
            }
        } else if only_dots {
            assert(s.len() > 2);
        } else {
            let j = choose|j: int| 0 <= j < s.len() && s[j] != '.';
            assert(seq!['.'][0] == '.');
            assert(seq!['.', '.'][0] == '.' && seq!['.', '.'][1] == '.');
            if s == seq!['.'] {
                assert(j == 0);
            }
            if s == seq!['.', '.'] {
                assert(j == 0 || j == 1);
            }
        }
    }
    !(only_dots && n <= 2)
}

/// Whether every component of a relative path is an ordinary name.
pub fn stays_inside(path: &Vec<String>, family: HostFamily) -> (r: bool)
    ensures
        r == is_contained(texts(path@), family),
{
    let mut i: usize = 0;
    while i < path.len()
        invariant
            i <= path.len(),
            forall|j: int| 0 <= j < i ==> is_plain_component(#[trigger] texts(path@)[j], family),
        decreases path.len() - i,
    {
        assert(texts(path@)[i as int] == path@[i as int]@);
        if !is_plain(path[i].as_str(), family) {
            return false;
        }
        i += 1;
    }
    true
}

/// Plans the installation of one entry: a directory to create where the name
/// ends with a slash, else a file to write; the recorded permission bits are
/// kept on a host that has them. An entry whose path would leave the install
/// directory is refused.
pub fn plan_entry(entry: ZipEntry, family: HostFamily) -> (r: Result<FsAction, Error>)
    ensures
        match planned(entry@, family) {
            Ok(action) => r matches Ok(a) && a@ == action,
            Err(e) => r matches Err(x) && x == e,
        },
        r matches Ok(a) ==> is_contained(a@.target(), family),
{
    if !stays_inside(&entry.path, family) {
        return Err(Error::Archive);
    }
    let mode = if family.has_permission_bits() {
        entry.unix_mode
    } else {
        None
    };
    if names_directory(entry.name.as_str()) {
        Ok(FsAction::CreateDir { path: entry.path, mode })
    } else {
        Ok(FsAction::WriteFile { path: entry.path, data: entry.data, mode })
    }
}

/// Plans the installation of the entries of an archive, one action for each
/// entry, in their order. One entry whose path would leave the install
/// directory fails the whole plan.
pub fn plan_entries(entries: Vec<ZipEntry>, family: HostFamily) -> (r: Result<Vec<FsAction>, Error>)
    ensures
        match r {
            Ok(plan) => plan@.len() == entries@.len() && forall|k: int|
                0 <= k < plan@.len() ==> planned(entries@[k]@, family) == Ok::<ActionView, Error>(
                    #[trigger] plan@[k]@,
                ),
            Err(e) => e == Error::Archive && exists|k: int|
                0 <= k < entries@.len() && !is_contained((#[trigger] entries@[k])@.path, family),
        },
{
    let ghost all = entries@;
    let mut rest = entries;
    let mut backwards: Vec<FsAction> = Vec::new();
    while rest.len() > 0
        invariant
            all == entries@,
            rest@.len() <= all.len(),
            rest@ == all.subrange(0, rest@.len() as int),
            backwards@.len() == all.len() - rest@.len(),
            forall|j: int|
                0 <= j < backwards@.len() ==> planned(all[all.len() - 1 - j]@, family) == Ok::<
                    ActionView,
                    Error,
                >(#[trigger] backwards@[j]@),
        decreases rest.len(),
    {
        let ghost at = rest@.len() - 1;
        let entry = rest.pop().unwrap();
        assert(entry == all[at]);
        match plan_entry(entry, family) {
            Ok(action) => {
                backwards.push(action);
            },
            Err(_) => {
                assert(0 <= at < entries@.len() && !is_contained(entries@[at]@.path, family));
                return Err(Error::Archive);
            },
        }
    }
    let ghost turned = backwards@;
    let mut plan: Vec<FsAction> = Vec::new();
    while backwards.len() > 0
        invariant
            turned.len() == all.len(),
            backwards@.len() <= turned.len(),
            backwards@ == turned.subrange(0, backwards@.len() as int),
            plan@.len() == turned.len() - backwards@.len(),
            forall|k: int| 0 <= k < plan@.len() ==> #[trigger] plan@[k] == turned[turned.len() - 1 - k],
        decreases backwards.len(),
    {
        let ghost at = backwards@.len() - 1;
        let action = backwards.pop().unwrap();
        assert(action == turned[at]);
        plan.push(action);
    }
    proof {
        assert forall|k: int| 0 <= k < plan@.len() implies planned(all[k]@, family) == Ok::<
            ActionView,
            Error,
        >(#[trigger] plan@[k]@) by {
            let j = all.len() - 1 - k;
            assert(plan@[k] == turned[j]);
            assert(planned(all[all.len() - 1 - j]@, family) == Ok::<ActionView, Error>(turned[j]@));
        }
    }
    Ok(plan)
}

} // verus!
