//! Laws of the manifest generator, stated and proved over the spec
//! functions that the executable contracts use.

use vstd::prelude::*;
use crate::load::{doc_packages, load_ok, loaded_records, toml_doc};
use crate::model::PackageView;
use crate::render::{dep_line, keep, requirements_of, selected};

verus! {

/// Filter correctness: a package is among the selected ones if and only
/// if it is in the lockfile and its category is kept under the given
/// development flag.
pub proof fn lemma_filter_correctness(pkgs: Seq<PackageView>, dev: bool, p: PackageView)
    ensures
        selected(pkgs, dev).contains(p) <==> (pkgs.contains(p) && keep(p, dev)),
    decreases pkgs.len(),
{
    if pkgs.len() == 0 {
    } else {
        let rest = pkgs.drop_last();
        let last = pkgs.last();
        lemma_filter_correctness(rest, dev, p);
        assert(pkgs.contains(p) <==> (rest.contains(p) || last == p)) by {
            if pkgs.contains(p) {
                let i = choose|i: int| 0 <= i < pkgs.len() && pkgs[i] == p;
                if i < rest.len() {
                    assert(rest[i] == p);
                }
            }
            if rest.contains(p) {
                let i = choose|i: int| 0 <= i < rest.len() && rest[i] == p;
                assert(pkgs[i] == p);
            }
            if last == p {
                assert(pkgs[pkgs.len() - 1] == p);
            }
        }
        if keep(last, dev) {
            let sel = selected(rest, dev);
            assert(selected(pkgs, dev) == sel.push(last));
            assert(sel.push(last).contains(p) <==> (sel.contains(p) || last == p)) by {
                if sel.push(last).contains(p) {
                    let i = choose|i: int| 0 <= i < sel.push(last).len() && sel.push(last)[i] == p;
                    if i < sel.len() {
                        assert(sel[i] == p);
                    }
                }
                if sel.contains(p) {
                    let i = choose|i: int| 0 <= i < sel.len() && sel[i] == p;
                    assert(sel.push(last)[i] == p);
                }
                if last == p {
                    assert(sel.push(last)[sel.len() as int] == p);
                }
            }
        }
    }
}

/// Wildcard suppression: a package whose constraint is exactly `"*"`
/// gets the bare `name==version` line, with no marker suffix appended.
pub proof fn lemma_wildcard_suppression(p: PackageView)
    requires
        p.python_versions == "*"@,
    ensures
        dep_line(p) == p.name + "=="@ + p.version,
{
}

/// A wildcard-constrained package's line holds no `';'` at all, wherever
/// its name and version hold none.
pub proof fn lemma_wildcard_line_semicolon_free(p: PackageView)
    requires
        p.python_versions == "*"@,
        !p.name.contains(';'),
        !p.version.contains(';'),
    ensures
        !dep_line(p).contains(';'),
{
    reveal_strlit("==");
    let line = dep_line(p);
    assert forall|i: int| 0 <= i < line.len() implies line[i] != ';' by {
        if i < p.name.len() {
            assert(line[i] == p.name[i]);
            assert(p.name.contains(p.name[i]));
        } else if i < p.name.len() + 2 {
            assert(line[i] == "=="@[i - p.name.len()]);
        } else {
            let j = i - p.name.len() - 2;
            assert(line[i] == p.version[j]);
            assert(p.version.contains(p.version[j]));
        }
    }
}

/// Determinism: the generated manifest is a function of the package
/// list and the development flag alone, so identical inputs give
/// byte-identical output.
pub proof fn lemma_determinism(
    pkgs1: Seq<PackageView>,
    pkgs2: Seq<PackageView>,
    dev1: bool,
    dev2: bool,
)
    requires
        pkgs1 == pkgs2,
        dev1 == dev2,
    ensures
        requirements_of(pkgs1, dev1) == requirements_of(pkgs2, dev2),
{
}

/// Determinism of loading: everything the loader's contracts promise —
/// whether the text parses, whether loading succeeds, and the records
/// it yields — is a function of the document text alone, so equal text
/// yields equal outcomes.
pub proof fn lemma_loader_determinism(text1: Seq<char>, text2: Seq<char>)
    requires
        text1 == text2,
    ensures
        toml_doc(text1) == toml_doc(text2),
        load_ok(text1) == load_ok(text2),
        doc_packages(text1) == doc_packages(text2),
        loaded_records(doc_packages(text1)->0) == loaded_records(doc_packages(text2)->0),
{
}

/// Empty-set behavior: a lockfile with no packages produces the empty
/// string, whatever the development flag.
pub proof fn lemma_empty_lockfile(dev: bool)
    ensures
        requirements_of(Seq::empty(), dev) == Seq::<char>::empty(),
{
    assert(selected(Seq::empty(), dev) =~= Seq::<PackageView>::empty());
    assert(selected(Seq::empty(), dev).map_values(|p: PackageView| dep_line(p))
        =~= Seq::<Seq<char>>::empty());
}

} // verus!
