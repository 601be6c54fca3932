//! Instance discovery: given the names of the regular files in the
//! configuration root, decide which workers should run.
//!
//! A default unnamed worker is emitted when both well-known default files
//! are present; a named worker is emitted for every executable matching
//! `frpc@<name>.exe` whose sibling configuration file `<name>.toml` is
//! present. A named executable without its configuration file is skipped
//! and reported, not fatal.

use vstd::prelude::*;

verus! {

/// One discovered worker: its identity, unique within a discovery pass,
/// and the launch parameters retained for later restarts. Immutable once
/// discovered.
pub struct WorkerSpec {
    pub identity: String,
    pub exe_file: String,
    pub config_file: String,
}

/// The mathematical content of a [`WorkerSpec`].
pub struct WorkerSpecView {
    pub identity: Seq<char>,
    pub exe_file: Seq<char>,
    pub config_file: Seq<char>,
}

impl View for WorkerSpec {
    type V = WorkerSpecView;

    open spec fn view(&self) -> WorkerSpecView {
        WorkerSpecView {
            identity: self.identity@,
            exe_file: self.exe_file@,
            config_file: self.config_file@,
        }
    }
}

impl DeepView for WorkerSpec {
    type V = WorkerSpecView;

    open spec fn deep_view(&self) -> WorkerSpecView {
        self.view()
    }
}

impl WorkerSpec {
    /// A field-for-field copy of this spec.
    pub fn duplicate(&self) -> (r: WorkerSpec)
        ensures
            r == *self,
    {
        WorkerSpec {
            identity: self.identity.clone(),
            exe_file: self.exe_file.clone(),
            config_file: self.config_file.clone(),
        }
    }
}

/// A file name of the shape `frpc@<name>.exe` with `<name>` nonempty:
/// it starts with the five characters `frpc@`, ends with the four
/// characters `.exe`, and holds at least one character between them.
pub open spec fn is_named_exe(f: Seq<char>) -> bool {
    &&& f.len() > 9
    &&& f[0] == 'f'
    &&& f[1] == 'r'
    &&& f[2] == 'p'
    &&& f[3] == 'c'
    &&& f[4] == '@'
    &&& f[f.len() - 4] == '.'
    &&& f[f.len() - 3] == 'e'
    &&& f[f.len() - 2] == 'x'
    &&& f[f.len() - 1] == 'e'
}

/// The `<name>` part of a `frpc@<name>.exe` file name.
pub open spec fn name_of(f: Seq<char>) -> Seq<char> {
    f.subrange(5, f.len() - 4)
}

/// The configuration file name paired with a worker name.
pub open spec fn config_for(name: Seq<char>) -> Seq<char> {
    name + ".toml"@
}

/// Both well-known default files are present in the root.
pub open spec fn default_present(files: Seq<Seq<char>>) -> bool {
    files.contains("frpc.exe"@) && files.contains("frpc.toml"@)
}

/// The default unnamed worker.
pub open spec fn default_worker() -> WorkerSpecView {
    WorkerSpecView { identity: "default"@, exe_file: "frpc.exe"@, config_file: "frpc.toml"@ }
}

/// A named executable is eligible when its sibling configuration file is
/// present in the root.
pub open spec fn eligible(all: Seq<Seq<char>>, f: Seq<char>) -> bool {
    is_named_exe(f) && all.contains(config_for(name_of(f)))
}

/// The worker emitted for an eligible named executable.
pub open spec fn worker_of(f: Seq<char>) -> WorkerSpecView {
    WorkerSpecView { identity: name_of(f), exe_file: f, config_file: config_for(name_of(f)) }
}

/// The named workers emitted for the files `files`, in file order, with
/// eligibility judged against the whole root listing `all`.
pub open spec fn named_workers(files: Seq<Seq<char>>, all: Seq<Seq<char>>) -> Seq<WorkerSpecView>
    decreases files.len(),
{
    if files.len() == 0 {
        Seq::empty()
    } else {
        named_workers(files.drop_last(), all) + if eligible(all, files.last()) {
            seq![worker_of(files.last())]
        } else {
            Seq::empty()
        }
    }
}

/// The named executables skipped for want of their configuration file,
/// in file order.
pub open spec fn skipped_exes(files: Seq<Seq<char>>, all: Seq<Seq<char>>) -> Seq<Seq<char>>
    decreases files.len(),
{
    if files.len() == 0 {
        Seq::empty()
    } else {
        skipped_exes(files.drop_last(), all) + if is_named_exe(files.last()) && !eligible(
            all,
            files.last(),
        ) {
            seq![files.last()]
        } else {
            Seq::empty()
        }
    }
}

/// Everything one discovery pass yields: the default worker first if its
/// pair is present, then the named workers in file order.
pub open spec fn spec_discover(files: Seq<Seq<char>>) -> Seq<WorkerSpecView> {
    (if default_present(files) {
        seq![default_worker()]
    } else {
        Seq::empty()
    }) + named_workers(files, files)
}

/// No two entries of the listing hold the same file name, as is true of
/// any directory listing.
pub open spec fn no_duplicate_names(files: Seq<Seq<char>>) -> bool {
    forall|i: int, j: int| 0 <= i < j < files.len() ==> files[i] != files[j]
}

/// Every two distinct workers in the sequence carry distinct identities.
pub open spec fn identities_unique(ws: Seq<WorkerSpecView>) -> bool {
    forall|i: int, j: int| 0 <= i < j < ws.len() ==> ws[i].identity != ws[j].identity
}

/// The one root listing on which a discovered identity repeats: the
/// default pair present beside an eligible `frpc@default.exe`, which
/// names its worker `default` as well.
pub open spec fn default_identity_collides(files: Seq<Seq<char>>) -> bool {
    default_present(files) && eligible(files, "frpc@default.exe"@)
}

/// The name between `frpc@` and `.exe` determines the whole file name.
proof fn lemma_name_determines_file(f1: Seq<char>, f2: Seq<char>)
    requires
        is_named_exe(f1),
        is_named_exe(f2),
        name_of(f1) == name_of(f2),
    ensures
        f1 == f2,
{
    assert(name_of(f1).len() == f1.len() - 9);
    assert(name_of(f2).len() == f2.len() - 9);
    assert(f1 =~= f2) by {
        assert forall|k: int| 0 <= k < f1.len() implies f1[k] == f2[k] by {
            if 5 <= k < f1.len() - 4 {
                assert(f1[k] == name_of(f1)[k - 5]);
                assert(f2[k] == name_of(f2)[k - 5]);
            }
        }
    }
}

/// The worker `w` is the one emitted for some eligible file of `files`.
pub open spec fn from_eligible_file(files: Seq<Seq<char>>, all: Seq<Seq<char>>, w: WorkerSpecView) -> bool {
    exists|j: int| 0 <= j < files.len() && eligible(all, #[trigger] files[j]) && w == worker_of(files[j])
}

/// Every named worker emitted for `files` comes from an eligible file of
/// `files`, carrying that file's name, executable and configuration.
proof fn lemma_named_workers_membership(files: Seq<Seq<char>>, all: Seq<Seq<char>>)
    ensures
        forall|k: int|
            0 <= k < named_workers(files, all).len() ==> from_eligible_file(
                files,
                all,
                #[trigger] named_workers(files, all)[k],
            ),
    decreases files.len(),
{
    if files.len() > 0 {
        let prefix = files.drop_last();
        lemma_named_workers_membership(prefix, all);
        assert forall|k: int| 0 <= k < named_workers(files, all).len() implies from_eligible_file(
            files,
            all,
            #[trigger] named_workers(files, all)[k],
        ) by {
            if k < named_workers(prefix, all).len() {
                let j = choose|j: int|
                    0 <= j < prefix.len() && eligible(all, #[trigger] prefix[j]) && named_workers(
                        prefix,
                        all,
                    )[k] == worker_of(prefix[j]);
                assert(files[j] == prefix[j]);
                assert(eligible(all, files[j]) && named_workers(files, all)[k] == worker_of(
                    files[j],
                ));
            } else {
                let j = files.len() - 1;
                assert(eligible(all, files[j]) && named_workers(files, all)[k] == worker_of(
                    files[j],
                ));
            }
        }
    }
}

/// With no duplicate file names, the named workers of one pass carry
/// pairwise distinct identities.
proof fn lemma_named_workers_unique(files: Seq<Seq<char>>, all: Seq<Seq<char>>)
    requires
        no_duplicate_names(files),
    ensures
        identities_unique(named_workers(files, all)),
    decreases files.len(),
{
    if files.len() > 0 {
        let prefix = files.drop_last();
        let last = files.last();
        assert(no_duplicate_names(prefix)) by {
            assert(forall|i: int| 0 <= i < prefix.len() ==> prefix[i] == files[i]);
        }
        lemma_named_workers_unique(prefix, all);
        lemma_named_workers_membership(prefix, all);
        if eligible(all, last) {
            let nw = named_workers(files, all);
            assert forall|i: int, j: int|
                0 <= i < j < nw.len() implies nw[i].identity != nw[j].identity by {
                if j < named_workers(prefix, all).len() {
                    assert(nw[i] == named_workers(prefix, all)[i]);
                    assert(nw[j] == named_workers(prefix, all)[j]);
                } else {
                    assert(nw[j] == worker_of(last));
                    assert(nw[i] == named_workers(prefix, all)[i]);
                    let jj = choose|jj: int|
                        0 <= jj < prefix.len() && eligible(all, #[trigger] prefix[jj])
                            && named_workers(prefix, all)[i] == worker_of(prefix[jj]);
                    assert(prefix[jj] == files[jj] && last == files[files.len() - 1]);
                    assert(prefix[jj] != last);
                    if name_of(prefix[jj]) == name_of(last) {
                        lemma_name_determines_file(prefix[jj], last);
                    }
                }
            }
        }
    }
}

/// The file name that would carry the identity `default`.
proof fn lemma_default_name_reconstruction(f: Seq<char>)
    requires
        is_named_exe(f),
        name_of(f) == "default"@,
    ensures
        f == "frpc@default.exe"@,
{
    reveal_strlit("default");
    reveal_strlit("frpc@default.exe");
    let g = "frpc@default.exe"@;
    assert(is_named_exe(g));
    assert(name_of(g) =~= "default"@);
    lemma_name_determines_file(f, g);
}

/// Identities are unique within one discovery pass.
///
/// The two hypotheses name exactly the listings on which this can hold:
/// a directory listing never repeats a file name, and a root that pairs
/// the default worker with an eligible `frpc@default.exe` makes two
/// workers named `default`, so that listing is left out.
pub proof fn lemma_discovered_identities_unique(files: Seq<Seq<char>>)
    requires
        no_duplicate_names(files),
        !default_identity_collides(files),
    ensures
        identities_unique(spec_discover(files)),
{
    let d = spec_discover(files);
    let nw = named_workers(files, files);
    lemma_named_workers_unique(files, files);
    lemma_named_workers_membership(files, files);
    if default_present(files) {
        assert forall|i: int, j: int|
            0 <= i < j < d.len() implies d[i].identity != d[j].identity by {
            if i == 0 {
                assert(d[i] == default_worker());
                assert(d[j] == nw[j - 1]);
                let jj = choose|jj: int|
                    0 <= jj < files.len() && eligible(files, #[trigger] files[jj]) && nw[j - 1]
                        == worker_of(files[jj]);
                if name_of(files[jj]) == "default"@ {
                    lemma_default_name_reconstruction(files[jj]);
                    assert(eligible(files, "frpc@default.exe"@));
                }
            } else {
                assert(d[i] == nw[i - 1]);
                assert(d[j] == nw[j - 1]);
            }
        }
    } else {
        assert(d =~= nw);
    }
}

/// What one discovery pass reports: the workers to launch, and the named
/// executables skipped because their configuration file is missing.
pub struct DiscoveryOutcome {
    pub specs: Vec<WorkerSpec>,
    pub skipped: Vec<String>,
}

/// True when some file in the listing has exactly the given name.
fn contains_file(files: &Vec<String>, target: &String) -> (r: bool)
    ensures
        r == files.deep_view().contains(target@),
{
    let mut i: usize = 0;
    while i < files.len()
        invariant
            0 <= i <= files@.len(),
            forall|k: int| 0 <= k < i ==> files.deep_view()[k] != target@,
        decreases files@.len() - i,
    {
        proof {
            assert(files.deep_view()[i as int] == files@[i as int]@);
        }
        if files[i].eq(target) {
            assert(files.deep_view().contains(target@)) by {
                assert(files.deep_view()[i as int] == target@);
            }
            return true;
        }
        i = i + 1;
    }
    assert(!files.deep_view().contains(target@)) by {
        assert(forall|k: int|
            0 <= k < files.deep_view().len() ==> files.deep_view()[k] != target@);
    }
    false
}

/// True when the file name has the shape `frpc@<name>.exe` with a
/// nonempty `<name>`.
fn check_named_exe(f: &String) -> (r: bool)
    ensures
        r == is_named_exe(f@),
{
    let s = f.as_str();
    let n = s.unicode_len();
    if n <= 9 {
        return false;
    }
    s.get_char(0) == 'f' && s.get_char(1) == 'r' && s.get_char(2) == 'p' && s.get_char(3) == 'c'
        && s.get_char(4) == '@' && s.get_char(n - 4) == '.' && s.get_char(n - 3) == 'e'
        && s.get_char(n - 2) == 'x' && s.get_char(n - 1) == 'e'
}

/// One discovery pass over the names of the regular files in the
/// configuration root. The order of the result is the file order of the
/// listing, so one pass is deterministic; an empty result is valid here
/// and surfaced to the caller by the supervisor.
pub fn discover(files: &Vec<String>) -> (r: DiscoveryOutcome)
    ensures
        r.specs.deep_view() == spec_discover(files.deep_view()),
        r.skipped.deep_view() == skipped_exes(files.deep_view(), files.deep_view()),
        no_duplicate_names(files.deep_view()) && !default_identity_collides(files.deep_view())
            ==> identities_unique(r.specs.deep_view()),
{
    proof {
        if no_duplicate_names(files.deep_view()) && !default_identity_collides(
            files.deep_view(),
        ) {
            lemma_discovered_identities_unique(files.deep_view());
        }
    }
    let mut specs: Vec<WorkerSpec> = Vec::new();
    let mut skipped: Vec<String> = Vec::new();

    let ghost all = files.deep_view();
    let default_exe = String::from_str("frpc.exe");
    let default_config = String::from_str("frpc.toml");
    if contains_file(files, &default_exe) && contains_file(files, &default_config) {
        specs.push(
            WorkerSpec {
                identity: String::from_str("default"),
                exe_file: default_exe,
                config_file: default_config,
            },
        );
        proof {
            assert(default_present(all));
            assert(specs.deep_view() =~= seq![default_worker()]);
        }
    } else {
        proof {
            assert(!default_present(all));
            assert(specs.deep_view() =~= Seq::<WorkerSpecView>::empty());
        }
    }
    proof {
        assert(all.take(0) =~= Seq::<Seq<char>>::empty());
        assert(named_workers(all.take(0), all) =~= Seq::<WorkerSpecView>::empty());
        assert(skipped_exes(all.take(0), all) =~= Seq::<Seq<char>>::empty());
    }

    let mut i: usize = 0;
    while i < files.len()
        invariant
            0 <= i <= files@.len(),
            all == files.deep_view(),
            specs.deep_view() =~= (if default_present(all) {
                seq![default_worker()]
            } else {
                Seq::<WorkerSpecView>::empty()
            }) + named_workers(all.take(i as int), all),
            skipped.deep_view() =~= skipped_exes(all.take(i as int), all),
        decreases files@.len() - i,
    {
        let f = &files[i];
        proof {
            assert(all[i as int] == files@[i as int]@);
            assert(all.take(i + 1).drop_last() =~= all.take(i as int));
            assert(all.take(i + 1).last() == f@);
        }
        let ghost specs_pre = specs.deep_view();
        let ghost skipped_pre = skipped.deep_view();
        if check_named_exe(f) {
            let n = f.as_str().unicode_len();
            let name = f.as_str().substring_char(5, n - 4).to_owned();
            assert(name@ == name_of(f@));
            let config = name.clone().concat(".toml");
            assert(config@ == config_for(name_of(f@)));
            if contains_file(files, &config) {
                let spec = WorkerSpec { identity: name, exe_file: f.clone(), config_file: config };
                assert(spec.deep_view() == worker_of(f@));
                specs.push(spec);
                proof {
                    assert(eligible(all, f@));
                    assert(specs.deep_view() =~= specs_pre.push(worker_of(f@)));
                    assert(named_workers(all.take(i + 1), all) =~= named_workers(
                        all.take(i as int),
                        all,
                    ).push(worker_of(f@)));
                }
            } else {
                skipped.push(f.clone());
                proof {
                    assert(!eligible(all, f@));
                    assert(skipped.deep_view() =~= skipped_pre.push(f@));
                    assert(skipped_exes(all.take(i + 1), all) =~= skipped_exes(
                        all.take(i as int),
                        all,
                    ).push(f@));
                    assert(named_workers(all.take(i + 1), all) =~= named_workers(
                        all.take(i as int),
                        all,
                    ));
                }
            }
        } else {
            proof {
                assert(!eligible(all, f@));
                assert(named_workers(all.take(i + 1), all) =~= named_workers(
                    all.take(i as int),
                    all,
                ));
                assert(skipped_exes(all.take(i + 1), all) =~= skipped_exes(all.take(i as int), all));
            }
        }
        i = i + 1;
    }
    proof {
        assert(all.take(files@.len() as int) =~= all);
        assert(specs.deep_view() =~= spec_discover(all));
    }
    DiscoveryOutcome { specs, skipped }
}

} // verus!
