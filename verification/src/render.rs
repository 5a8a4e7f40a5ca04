//! The manifest generator: filters the package records by category, renders
//! one `name==version` line per selected record, appends the
//! environment-marker expression derived from the record's constraint
//! string, and joins the lines with single newlines.

use vstd::prelude::*;
use vstd::string::*;
use crate::constraint::{parse_spec, clause_views, clauses_of, ClauseView};
use crate::model::{LockFile, PackageView};
use crate::strutil::str_eq;

verus! {

/// The marker expression of one clause:
/// `python_version {op} "{ver}"`.
pub open spec fn marker_of(c: ClauseView) -> Seq<char> {
    "python_version "@ + c.op + " \""@ + c.ver + "\""@
}

/// The markers of a clause list, joined with `" and "`.
pub open spec fn join_markers(cs: Seq<ClauseView>) -> Seq<char>
    decreases cs.len(),
{
    if cs.len() == 0 {
        Seq::empty()
    } else if cs.len() == 1 {
        marker_of(cs[0])
    } else {
        join_markers(cs.drop_last()) + " and "@ + marker_of(cs.last())
    }
}

/// The whole marker expression of a constraint string.
pub open spec fn markers_of(s: Seq<char>) -> Seq<char> {
    join_markers(clauses_of(s))
}

/// Renders the marker expression of a constraint string.
pub fn render_markers(spectxts: &str) -> (r: String)
    ensures
        r@ == markers_of(spectxts@),
{
    let clauses = match parse_spec(spectxts) {
        Ok(cs) => cs,
        Err(_) => {
            proof {
                assert(false);
            }
            Vec::new()
        },
    };
    let ghost cvs = clause_views(clauses@);
    let mut out = String::new();
    let mut i: usize = 0;
    proof {
        assert(cvs.take(0) =~= Seq::<ClauseView>::empty());
    }
    while i < clauses.len()
        invariant
            cvs == clause_views(clauses@),
            cvs == clauses_of(spectxts@),
            cvs.len() == clauses@.len(),
            i <= clauses.len(),
            out@ == join_markers(cvs.take(i as int)),
        decreases clauses.len() - i,
    {
        proof {
            assert(cvs.take(i as int + 1).drop_last() =~= cvs.take(i as int));
            assert(cvs.take(i as int + 1).last() == cvs[i as int]);
            assert(cvs[i as int] == clauses@[i as int]@);
        }
        if i > 0 {
            out.append(" and ");
        }
        let cl = &clauses[i];
        out.append("python_version ");
        out.append(cl.op.as_str());
        out.append(" \"");
        out.append(cl.ver.as_str());
        out.append("\"");
        proof {
            assert(out@ =~= join_markers(cvs.take(i as int + 1)));
        }
        i = i + 1;
    }
    proof {
        assert(cvs.take(clauses@.len() as int) =~= cvs);
    }
    out
}

/// Whether a package is selected: kept iff its category is `"main"`, or
/// `"dev"` when development packages are included.
pub open spec fn keep(p: PackageView, dev: bool) -> bool {
    p.category == "main"@ || (dev && p.category == "dev"@)
}

/// The manifest line of one selected package: `name==version`, suffixed
/// with `; {markers}` unless the constraint is exactly the wildcard `"*"`.
pub open spec fn dep_line(p: PackageView) -> Seq<char> {
    let base = p.name + "=="@ + p.version;
    if p.python_versions == "*"@ {
        base
    } else {
        base + "; "@ + markers_of(p.python_versions)
    }
}

/// The selected packages, in their original order.
pub open spec fn selected(pkgs: Seq<PackageView>, dev: bool) -> Seq<PackageView>
    decreases pkgs.len(),
{
    if pkgs.len() == 0 {
        Seq::empty()
    } else {
        let rest = selected(pkgs.drop_last(), dev);
        if keep(pkgs.last(), dev) {
            rest.push(pkgs.last())
        } else {
            rest
        }
    }
}

/// Lines joined with a single newline: no trailing newline, and no lines
/// at all give the empty string.
pub open spec fn join_lines(lines: Seq<Seq<char>>) -> Seq<char>
    decreases lines.len(),
{
    if lines.len() == 0 {
        Seq::empty()
    } else if lines.len() == 1 {
        lines[0]
    } else {
        join_lines(lines.drop_last()) + "\n"@ + lines.last()
    }
}

/// The whole generated manifest for a package list and a development flag.
pub open spec fn requirements_of(pkgs: Seq<PackageView>, dev: bool) -> Seq<char> {
    join_lines(selected(pkgs, dev).map_values(|p: PackageView| dep_line(p)))
}

impl LockFile {
    /// Generates the pinned-dependency manifest for this lockfile.
    pub fn to_requirements(&self, dev_mode: bool) -> (r: String)
        ensures
            r@ == requirements_of(self@, dev_mode),
    {
        let mut out = String::new();
        let mut emitted = false;
        let mut i: usize = 0;
        proof {
            assert(self@.take(0) =~= Seq::<PackageView>::empty());
        }
        while i < self.package.len()
            invariant
                i <= self.package.len(),
                self@.len() == self.package@.len(),
                out@ == requirements_of(self@.take(i as int), dev_mode),
                emitted == (selected(self@.take(i as int), dev_mode).len() > 0),
            decreases self.package.len() - i,
        {
            let ghost pre = self@.take(i as int);
            let ghost post = self@.take(i as int + 1);
            proof {
                assert(post.drop_last() =~= pre);
                assert(post.last() == self@[i as int]);
            }
            let p = &self.package[i];
            proof {
                assert(p@ == self@[i as int]);
            }
            let is_main = str_eq(p.category.as_str(), "main");
            let is_dev = str_eq(p.category.as_str(), "dev");
            let keep_p = is_main || (dev_mode && is_dev);
            proof {
                assert(keep_p == keep(p@, dev_mode));
            }
            if keep_p {
                let ghost out0 = out@;
                let ghost sel_pre = selected(pre, dev_mode);
                let ghost sel_post = selected(post, dev_mode);
                proof {
                    assert(sel_post == sel_pre.push(p@));
                    assert(sel_post.map_values(|q: PackageView| dep_line(q)) =~= sel_pre
                        .map_values(|q: PackageView| dep_line(q)).push(dep_line(p@)));
                }
                if emitted {
                    out.append("\n");
                }
                out.append(p.name.as_str());
                out.append("==");
                out.append(p.version.as_str());
                if !str_eq(p.python_versions.as_str(), "*") {
                    out.append("; ");
                    let m = render_markers(p.python_versions.as_str());
                    out.append(m.as_str());
                }
                emitted = true;
                proof {
                    let lines_pre = sel_pre.map_values(|q: PackageView| dep_line(q));
                    let lines_post = sel_post.map_values(|q: PackageView| dep_line(q));
                    assert(lines_post.drop_last() =~= lines_pre);
                    assert(lines_post.last() == dep_line(p@));
                    if sel_pre.len() == 0 {
                        assert(out0 =~= Seq::<char>::empty());
                        assert(out@ =~= dep_line(p@));
                    } else {
                        assert(out@ =~= join_lines(lines_pre) + "\n"@ + dep_line(p@));
                    }
                    assert(out@ == requirements_of(post, dev_mode));
                }
            } else {
                proof {
                    assert(selected(post, dev_mode) == selected(pre, dev_mode));
                    assert(out@ == requirements_of(post, dev_mode));
                }
            }
            i = i + 1;
        }
        proof {
            assert(self@.take(self.package@.len() as int) =~= self@);
        }
        out
    }
}

} // verus!
