use vstd::prelude::*;
use vstd::string::*;
use crate::text::same_text;

verus! {

/// The character sequences of a list of strings.
pub open spec fn texts(v: Seq<String>) -> Seq<Seq<char>> {
    v.map_values(|s: String| s@)
}

/// Commands carried out by the installer itself (changing and creating
/// directories), which are always available.
pub open spec fn is_internal(cmd: Seq<char>) -> bool {
    cmd == "cd"@ || cmd == "mkdir"@
}

/// Every command of `cmds` is internal or among those found on the host.
pub open spec fn all_resolvable(cmds: Seq<Seq<char>>, found: Seq<Seq<char>>) -> bool {
    forall|i: int| 0 <= i < cmds.len() ==> is_internal(#[trigger] cmds[i]) || found.contains(cmds[i])
}

/// Whether `cmd` is internal.
pub fn internal_command(cmd: &str) -> (r: bool)
    ensures
        r == is_internal(cmd@),
{
    same_text(cmd, "cd") || same_text(cmd, "mkdir")
}

/// Whether `s` occurs in `v`.
pub fn contains_text(v: &Vec<String>, s: &str) -> (r: bool)
    ensures
        r == texts(v@).contains(s@),
{
    let n = v.len();
    let mut i: usize = 0;
    while i < n
        invariant
            n == v@.len(),
            i <= n,
            forall|j: int| 0 <= j < i ==> v@[j]@ != s@,
        decreases n - i,
    {
        if same_text(v[i].as_str(), s) {
            assert(texts(v@)[i as int] == s@);
            return true;
        }
        i = i + 1;
    }
    assert(!texts(v@).contains(s@)) by {
        if texts(v@).contains(s@) {
            let k = choose|k: int| 0 <= k < texts(v@).len() && texts(v@)[k] == s@;
            assert(v@[k]@ == s@);
        }
    }
    false
}

/// The non-internal commands of `cmds`, each at its first appearance only.
pub open spec fn external_once(cmds: Seq<Seq<char>>) -> Seq<Seq<char>>
    decreases cmds.len(),
{
    if cmds.len() == 0 {
        Seq::empty()
    } else {
        let before = external_once(cmds.drop_last());
        if is_internal(cmds.last()) || before.contains(cmds.last()) {
            before
        } else {
            before.push(cmds.last())
        }
    }
}

/// The external commands of `cm_list` that must be looked up on the host:
/// each non-internal command once, in order of first appearance.
pub fn commands_to_check(cm_list: &Vec<String>) -> (r: Vec<String>)
    ensures
        texts(r@) == external_once(texts(cm_list@)),
{
    let mut r: Vec<String> = Vec::new();
    let n = cm_list.len();
    let mut j: usize = 0;
    while j < n
        invariant
            n == cm_list@.len(),
            j <= n,
            texts(r@) == external_once(texts(cm_list@).subrange(0, j as int)),
        decreases n - j,
    {
        let cmd = &cm_list[j];
        let ghost upto = texts(cm_list@).subrange(0, j + 1);
        assert(upto.drop_last() =~= texts(cm_list@).subrange(0, j as int));
        assert(upto.last() == cmd@);
        if !internal_command(cmd.as_str()) && !contains_text(&r, cmd.as_str()) {
            let ghost old_r = r@;
            r.push(cmd.clone());
            assert(texts(r@) =~= texts(old_r).push(cmd@));
        }
        j = j + 1;
    }
    assert(texts(cm_list@).subrange(0, n as int) =~= texts(cm_list@));
    r
}

/// The toolchain check: 0 where every command of `cm_list` is internal or
/// among the commands `found` on the host, -1 where one is missing.
pub fn check_commands(cm_list: &Vec<String>, found: &Vec<String>) -> (r: i32)
    ensures
        r == 0 <==> all_resolvable(texts(cm_list@), texts(found@)),
        r == 0 || r == -1,
{
    let n = cm_list.len();
    let mut i: usize = 0;
    while i < n
        invariant
            n == cm_list@.len(),
            i <= n,
            forall|j: int| 0 <= j < i ==> is_internal(#[trigger] texts(cm_list@)[j])
                || texts(found@).contains(texts(cm_list@)[j]),
        decreases n - i,
    {
        let cmd = &cm_list[i];
        assert(texts(cm_list@)[i as int] == cmd@);
        if !internal_command(cmd.as_str()) && !contains_text(found, cmd.as_str()) {
            return -1;
        }
        i = i + 1;
    }
    0
}

} // verus!
