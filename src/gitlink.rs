//! Submodule link state: whether a submodule is really declared in the parent
//! repository's configuration, and what must be done on disk so that its
//! working directory holds a gitlink file pointing at the parent's internal
//! storage before checkout.

use vstd::prelude::*;
use vstd::string::*;

verus! {

/// `pat` occurs in `text` starting at position `k`.
pub open spec fn occurs_at(text: Seq<char>, pat: Seq<char>, k: int) -> bool {
    0 <= k && k + pat.len() <= text.len() && text.subrange(k, k + pat.len()) == pat
}

/// `pat` occurs somewhere in `text`.
pub open spec fn occurs_in(text: Seq<char>, pat: Seq<char>) -> bool {
    exists|k: int| #[trigger] occurs_at(text, pat, k)
}

/// The configuration section key that declares submodule `name`:
/// `[submodule "name"]`.
pub open spec fn section_key(name: Seq<char>) -> Seq<char> {
    "[submodule \""@ + name + "\"]"@
}

/// Submodule `name` is declared in the configuration text `config`: its
/// section key occurs there exactly, so a name that is only part of another
/// name does not count.
pub open spec fn declared_in(config: Seq<char>, name: Seq<char>) -> bool {
    occurs_in(config, section_key(name))
}

/// The content of the gitlink file of a submodule at `path`.
pub open spec fn gitlink_text(path: Seq<char>) -> Seq<char> {
    "gitdir: ../../.git/modules/"@ + path
}

/// The location of the gitlink file inside the working directory `path`.
pub open spec fn gitlink_location(path: Seq<char>) -> Seq<char> {
    path + "/.git"@
}

fn chars_of(s: &str) -> (r: Vec<char>)
    ensures
        r@ == s@,
{
    let n: usize = s.unicode_len();
    let mut v: Vec<char> = Vec::new();
    let mut i: usize = 0;
    while i < n
        invariant
            n == s@.len(),
            i <= n,
            v@ == s@.subrange(0, i as int),
        decreases n - i,
    {
        v.push(s.get_char(i));
        i += 1;
    }
    assert(v@ =~= s@);
    v
}

/// Whether `pat` occurs in `text`.
pub fn occurs(text: &Vec<char>, pat: &Vec<char>) -> (r: bool)
    ensures
        r == occurs_in(text@, pat@),
{
    if pat.len() > text.len() {
        assert forall|k: int| !occurs_at(text@, pat@, k) by {}
        return false;
    }
    let n: usize = text.len();
    let last: usize = n - pat.len();
    let mut i: usize = 0;
    loop
        invariant
            pat@.len() <= text@.len(),
            n == text@.len(),
            last == text@.len() - pat@.len(),
            i <= last,
            forall|k: int| 0 <= k < i ==> !#[trigger] occurs_at(text@, pat@, k),
        ensures
            forall|k: int| 0 <= k <= last ==> !#[trigger] occurs_at(text@, pat@, k),
        decreases last - i,
    {
        let mut j: usize = 0;
        while j < pat.len()
            invariant
                pat@.len() <= text@.len(),
                n == text@.len(),
                i <= last,
                last == text@.len() - pat@.len(),
                j <= pat@.len(),
                forall|m: int| 0 <= m < j ==> text@[i + m] == pat@[m],
            ensures
                j < pat@.len() ==> text@[i + j] != pat@[j as int],
                j <= pat@.len(),
                forall|m: int| 0 <= m < j ==> text@[i + m] == pat@[m],
            decreases pat.len() - j,
        {
            if text[i + j] != pat[j] {
                break;
            }
            j += 1;
        }
        if j == pat.len() {
            assert(text@.subrange(i as int, i + pat@.len()) =~= pat@);
            assert(occurs_at(text@, pat@, i as int));
            return true;
        }
        assert(text@.subrange(i as int, i + pat@.len())[j as int] != pat@[j as int]);
        assert(!occurs_at(text@, pat@, i as int));
        if i == last {
            break;
        }
        i += 1;
    }
    assert forall|k: int| !occurs_at(text@, pat@, k) by {
        if 0 <= k <= last {
        }
    }
    false
}

/// The section key declaring submodule `name`.
pub fn submodule_section_key(name: &str) -> (r: String)
    ensures
        r@ == section_key(name@),
{
    let mut s = String::from_str("[submodule \"");
    s.append(name);
    s.append("\"]");
    s
}

/// Whether submodule `name` is genuinely declared in the parent's
/// configuration text. Submodule enumeration can report entries that are not
/// configured; those are left alone by link repair.
pub fn is_declared(config: &str, name: &str) -> (r: bool)
    ensures
        r == declared_in(config@, name@),
{
    let key = submodule_section_key(name);
    let text = chars_of(config);
    let pat = chars_of(key.as_str());
    occurs(&text, &pat)
}

/// The gitlink content for the submodule at `path`.
pub fn gitlink_content(path: &str) -> (r: String)
    ensures
        r@ == gitlink_text(path@),
{
    let mut s = String::from_str("gitdir: ../../.git/modules/");
    s.append(path);
    s
}

/// The gitlink file's location for the submodule at `path`.
pub fn gitlink_path(path: &str) -> (r: String)
    ensures
        r@ == gitlink_location(path@),
{
    let mut s = String::from_str(path);
    s.append("/.git");
    s
}

/// What is on disk for one submodule: whether its working directory exists,
/// and the content of its gitlink file if there is one.
pub struct DiskModel {
    pub dir_exists: bool,
    pub gitlink: Option<Seq<char>>,
}

/// What the caller found on disk for one submodule: whether its working
/// directory exists, and the content of its gitlink file if there is one.
#[derive(Debug)]
pub struct LinkFacts {
    pub dir_exists: bool,
    pub gitlink: Option<String>,
}

impl View for LinkFacts {
    type V = DiskModel;

    open spec fn view(&self) -> DiskModel {
        DiskModel {
            dir_exists: self.dir_exists,
            gitlink: match self.gitlink {
                Some(c) => Some(c@),
                None => None,
            },
        }
    }
}

/// The work repair does on disk: create the working directory, and write a
/// gitlink file with the given content.
#[derive(Debug)]
pub struct RepairPlan {
    pub create_dir: bool,
    pub write_gitlink: Option<String>,
}

pub struct PlanModel {
    pub create_dir: bool,
    pub write_gitlink: Option<Seq<char>>,
}

impl View for RepairPlan {
    type V = PlanModel;

    open spec fn view(&self) -> PlanModel {
        PlanModel {
            create_dir: self.create_dir,
            write_gitlink: match self.write_gitlink {
                Some(s) => Some(s@),
                None => None,
            },
        }
    }
}

/// The repair for a submodule at `path`: nothing when it is not declared;
/// otherwise create a missing working directory, and write the gitlink when
/// it is missing or stale.
pub open spec fn repair_plan(declared: bool, d: DiskModel, path: Seq<char>) -> PlanModel {
    if !declared {
        PlanModel { create_dir: false, write_gitlink: None }
    } else {
        PlanModel {
            create_dir: !d.dir_exists,
            write_gitlink: if d.gitlink == Some(gitlink_text(path)) {
                None
            } else {
                Some(gitlink_text(path))
            },
        }
    }
}

/// The on-disk state once `plan` has been carried out.
pub open spec fn apply_plan(d: DiskModel, plan: PlanModel) -> DiskModel {
    DiskModel {
        dir_exists: d.dir_exists || plan.create_dir,
        gitlink: match plan.write_gitlink {
            Some(c) => Some(c),
            None => d.gitlink,
        },
    }
}

/// A plan that leaves the disk as it is.
pub open spec fn is_noop(plan: PlanModel) -> bool {
    !plan.create_dir && plan.write_gitlink is None
}

impl RepairPlan {
    /// Whether the plan has nothing to do.
    pub fn is_empty(&self) -> (r: bool)
        ensures
            r == is_noop(self@),
    {
        !self.create_dir && self.write_gitlink.is_none()
    }
}

/// Decides the repair of the submodule at `path` from whether it is declared
/// and what is on disk.
pub fn plan_repair(declared: bool, facts: &LinkFacts, path: &str) -> (r: RepairPlan)
    ensures
        r@ == repair_plan(declared, facts@, path@),
{
    if !declared {
        return RepairPlan { create_dir: false, write_gitlink: None };
    }
    let content = gitlink_content(path);
    let current = match &facts.gitlink {
        Some(c) => *c == content,
        None => false,
    };
    RepairPlan {
        create_dir: !facts.dir_exists,
        write_gitlink: if current {
            None
        } else {
            Some(content)
        },
    }
}

/// Decides the repair of submodule `name` at `path` from the parent's
/// configuration text and what is on disk.
pub fn plan_submodule_repair(config: &str, name: &str, path: &str, facts: &LinkFacts) -> (r:
    RepairPlan)
    ensures
        r@ == repair_plan(declared_in(config@, name@), facts@, path@),
        !declared_in(config@, name@) ==> is_noop(r@),
{
    let declared = is_declared(config, name);
    plan_repair(declared, facts, path)
}

/// The notice shown once the gitlink of submodule `name` has been written.
pub fn repair_notice(name: &str) -> (r: String)
    ensures
        r@ == "Wrote .git file for "@ + name@,
{
    let mut s = String::from_str("Wrote .git file for ");
    s.append(name);
    s
}

/// After repair, a declared submodule has its working directory and a gitlink
/// resolving to its storage in the parent, whatever was on disk before.
pub proof fn lemma_repair_establishes_link(d: DiskModel, path: Seq<char>)
    ensures
        apply_plan(d, repair_plan(true, d, path)).dir_exists,
        apply_plan(d, repair_plan(true, d, path)).gitlink == Some(gitlink_text(path)),
{
}

/// Repair is idempotent: repairing again after a repair has nothing to do and
/// leaves the disk as the first repair left it.
pub proof fn lemma_repair_idempotent(declared: bool, d: DiskModel, path: Seq<char>)
    ensures
        ({
            let once = apply_plan(d, repair_plan(declared, d, path));
            let again = repair_plan(declared, once, path);
            is_noop(again) && apply_plan(once, again) == once
        }),
{
}

/// A submodule that is not declared is never touched by repair.
pub proof fn lemma_undeclared_untouched(d: DiskModel, path: Seq<char>)
    ensures
        is_noop(repair_plan(false, d, path)),
        apply_plan(d, repair_plan(false, d, path)) == d,
{
}

} // verus!
