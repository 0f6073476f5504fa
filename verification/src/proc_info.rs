//! Finding the executor among the running processes.
//!
//! The caller reads the process table and hands it over as plain values.

use vstd::prelude::*;

verus! {

/// A running process: its id and its name.
#[derive(Debug)]
pub struct ProcessEntry {
    pub pid: u32,
    pub name: String,
}

/// The ids of the processes named `name`, in the order of the table.
pub open spec fn pids_named(processes: Seq<ProcessEntry>, name: Seq<char>) -> Seq<u32>
    decreases processes.len(),
{
    if processes.len() == 0 {
        Seq::empty()
    } else {
        let rest = pids_named(processes.drop_last(), name);
        if processes.last().name@ == name {
            rest.push(processes.last().pid)
        } else {
            rest
        }
    }
}

/// Some process of the table is named `name`.
pub open spec fn runs_named(processes: Seq<ProcessEntry>, name: Seq<char>) -> bool {
    exists|i: int| 0 <= i < processes.len() && #[trigger] processes[i].name@ == name
}

/// Whether a process named `process_name` is in the table.
pub fn is_running(processes: &Vec<ProcessEntry>, process_name: &str) -> (r: bool)
    ensures
        r == runs_named(processes@, process_name@),
{
    let wanted = String::from_str(process_name);
    let mut i: usize = 0;
    while i < processes.len()
        invariant
            wanted@ == process_name@,
            i <= processes.len(),
            forall|k: int| 0 <= k < i ==> #[trigger] processes@[k].name@ != process_name@,
        decreases processes.len() - i,
    {
        if processes[i].name == wanted {
            return true;
        }
        i += 1;
    }
    false
}

/// The ids of the processes named `process_name`: those that stopping the
/// executor kills and that its status reports.
pub fn processes_named(processes: &Vec<ProcessEntry>, process_name: &str) -> (r: Vec<u32>)
    ensures
        r@ == pids_named(processes@, process_name@),
{
    let wanted = String::from_str(process_name);
    let mut r: Vec<u32> = Vec::new();
    let mut i: usize = 0;
    while i < processes.len()
        invariant
            wanted@ == process_name@,
            i <= processes.len(),
            r@ == pids_named(processes@.take(i as int), process_name@),
        decreases processes.len() - i,
    {
        proof {
            assert(processes@.take(i + 1).drop_last() =~= processes@.take(i as int));
        }
        if processes[i].name == wanted {
            r.push(processes[i].pid);
        }
        i += 1;
    }
    proof {
        assert(processes@.take(i as int) =~= processes@);
    }
    r
}

/// A pid is listed exactly when a process with that id and name is in the table.
pub proof fn pids_named_are_the_named(processes: Seq<ProcessEntry>, name: Seq<char>, pid: u32)
    ensures
        pids_named(processes, name).contains(pid) <==> exists|i: int|
            0 <= i < processes.len() && #[trigger] processes[i].name@ == name && processes[i].pid
                == pid,
    decreases processes.len(),
{
    if processes.len() > 0 {
        let rest = processes.drop_last();
        pids_named_are_the_named(rest, name, pid);
        let last = processes.len() - 1;
        if pids_named(processes, name).contains(pid) {
            let r = pids_named(rest, name);
            if r.contains(pid) {
                let i = choose|i: int|
                    0 <= i < rest.len() && #[trigger] rest[i].name@ == name && rest[i].pid == pid;
                assert(processes[i] == rest[i]);
            } else {
                assert(processes[last].name@ == name && processes[last].pid == pid);
            }
        }
        if exists|i: int|
            0 <= i < processes.len() && #[trigger] processes[i].name@ == name && processes[i].pid
                == pid {
            let i = choose|i: int|
                0 <= i < processes.len() && #[trigger] processes[i].name@ == name && processes[i].pid
                    == pid;
            if i < last {
                assert(rest[i] == processes[i]);
                let r = pids_named(rest, name);
                let j = choose|j: int| 0 <= j < r.len() && r[j] == pid;
                if processes.last().name@ == name {
                    assert(r.push(processes.last().pid)[j] == pid);
                }
            } else {
                let r = pids_named(rest, name);
                assert(r.push(processes.last().pid)[r.len() as int] == pid);
            }
        }
    }
}

/// A process named `name` runs exactly when some pid is listed for that name:
/// stopping kills something exactly when the executor is seen running.
pub proof fn running_iff_pids_listed(processes: Seq<ProcessEntry>, name: Seq<char>)
    ensures
        runs_named(processes, name) <==> pids_named(processes, name).len() > 0,
    decreases processes.len(),
{
    if processes.len() > 0 {
        let rest = processes.drop_last();
        running_iff_pids_listed(rest, name);
        if runs_named(rest, name) {
            let i = choose|i: int| 0 <= i < rest.len() && #[trigger] rest[i].name@ == name;
            assert(processes[i] == rest[i]);
        }
        if runs_named(processes, name) {
            let i = choose|i: int| 0 <= i < processes.len() && #[trigger] processes[i].name@ == name;
            if i < rest.len() {
                assert(rest[i] == processes[i]);
            }
        }
    }
}

} // verus!
