//! The project listing order, as a verified sort: featured rows first, then
//! by year descending, then by creation time descending — the order the
//! listing endpoints promise.

use vstd::prelude::*;

use crate::models::Project;

verus! {

broadcast use vstd::seq_lib::group_to_multiset_ensures, vstd::multiset::group_multiset_axioms;

/// Featured projects rank before the rest.
pub open spec fn feat_rank(p: Project) -> int {
    if p.featured {
        1
    } else {
        0
    }
}

/// Higher years rank first; a project without a year ranks before any with
/// one, as the store's descending order with absent values first does.
pub open spec fn year_rank(p: Project) -> int {
    match p.year {
        Some(y) => y as int,
        None => 0x8000_0000,
    }
}

/// The listing order of projects.
pub open spec fn project_le(a: Project, b: Project) -> bool {
    if feat_rank(a) != feat_rank(b) {
        feat_rank(a) > feat_rank(b)
    } else if year_rank(a) != year_rank(b) {
        year_rank(a) > year_rank(b)
    } else {
        a.created_at >= b.created_at
    }
}

/// A sequence of projects in listing order.
pub open spec fn projects_ordered(s: Seq<Project>) -> bool {
    forall|i: int, j: int| #![trigger s[i], s[j]] 0 <= i < j < s.len() ==> project_le(s[i], s[j])
}

/// The listing order holds between any two projects, one way or the other.
pub proof fn lemma_project_le_total(a: Project, b: Project)
    ensures
        project_le(a, b) || project_le(b, a),
{
}

/// The listing order is transitive.
pub proof fn lemma_project_le_trans(a: Project, b: Project, c: Project)
    requires
        project_le(a, b),
        project_le(b, c),
    ensures
        project_le(a, c),
{
}

/// Law: in an ordered listing every featured row stands before every
/// unfeatured one; within rows of equal featuredness a higher year stands
/// before a lower one, and at equal years the later creation stands first.
pub proof fn lemma_listing_order(s: Seq<Project>, i: int, j: int)
    requires
        projects_ordered(s),
        0 <= i < j < s.len(),
    ensures
        s[j].featured ==> s[i].featured,
        s[i].featured == s[j].featured ==> year_rank(s[i]) >= year_rank(s[j]),
        s[i].featured == s[j].featured && year_rank(s[i]) == year_rank(s[j]) ==> s[i].created_at
            >= s[j].created_at,
{
    assert(project_le(s[i], s[j]));
}

fn project_le_exec(a: &Project, b: &Project) -> (r: bool)
    ensures
        r == project_le(*a, *b),
{
    let fa: i64 = if a.featured {
        1
    } else {
        0
    };
    let fb: i64 = if b.featured {
        1
    } else {
        0
    };
    if fa != fb {
        return fa > fb;
    }
    let ya: i64 = match a.year {
        Some(y) => y as i64,
        None => 0x8000_0000i64,
    };
    let yb: i64 = match b.year {
        Some(y) => y as i64,
        None => 0x8000_0000i64,
    };
    if ya != yb {
        return ya > yb;
    }
    a.created_at >= b.created_at
}

fn insert_pos(out: &Vec<Project>, x: &Project) -> (k: usize)
    ensures
        k <= out@.len(),
        forall|i: int| 0 <= i < k ==> project_le(out@[i], *x),
        k < out@.len() ==> !project_le(out@[k as int], *x),
{
    let n: usize = out.len();
    let mut k: usize = 0;
    while k < n
        invariant
            n == out@.len(),
            0 <= k <= n,
            forall|i: int| 0 <= i < k ==> project_le(out@[i], *x),
        decreases n - k,
    {
        if !project_le_exec(&out[k], x) {
            return k;
        }
        k += 1;
    }
    k
}

/// Put a listing in its order: the result holds exactly the given rows,
/// rearranged so that every featured row stands before every unfeatured one
/// and, within a group, higher years stand first.
pub fn list_projects(rows: Vec<Project>) -> (r: Vec<Project>)
    ensures
        projects_ordered(r@),
        r@.to_multiset() == rows@.to_multiset(),
{
    let ghost orig = rows@;
    let mut rest = rows;
    let mut out: Vec<Project> = Vec::new();
    proof {
        assert forall|a: Project| !(Seq::<Project>::empty().contains(a)) by {}
        assert(out@.to_multiset().add(rest@.to_multiset()) =~= orig.to_multiset());
    }
    while rest.len() > 0
        invariant
            projects_ordered(out@),
            out@.to_multiset().add(rest@.to_multiset()) == orig.to_multiset(),
        decreases rest.len(),
    {
        let ghost prev_rest = rest@;
        let x = rest.remove(0);
        let k: usize = insert_pos(&out, &x);
        let ghost prev_out = out@;
        out.insert(k, x);
        proof {
            assert(prev_rest[0] == x);
            assert(rest@ =~= prev_rest.remove(0));
            assert(out@ =~= prev_out.insert(k as int, x));
            assert(prev_rest.to_multiset().count(x) > 0);
            assert(out@.to_multiset().add(rest@.to_multiset()) =~= orig.to_multiset());
            prev_out.insert_ensures(k as int, x);
            assert forall|i: int, j: int|
                0 <= i < j < out@.len() implies project_le(out@[i], out@[j]) by {
                let ki = k as int;
                if j < ki {
                    assert(project_le(prev_out[i], prev_out[j]));
                } else if i < ki && j == ki {
                    assert(project_le(prev_out[i], x));
                } else if i < ki && j > ki {
                    assert(project_le(prev_out[i], prev_out[j - 1]));
                } else if i == ki {
                    assert(out@[i] == x);
                    assert(out@[j] == prev_out[j - 1]);
                    assert(ki < prev_out.len());
                    assert(!project_le(prev_out[ki], x));
                    lemma_project_le_total(x, prev_out[ki]);
                    if j - 1 > ki {
                        assert(project_le(prev_out[ki], prev_out[j - 1]));
                        lemma_project_le_trans(x, prev_out[ki], prev_out[j - 1]);
                    }
                } else {
                    assert(project_le(prev_out[i - 1], prev_out[j - 1]));
                }
            }
        }
    }
    proof {
        assert forall|a: Project| !(rest@.contains(a)) by {}
        assert(out@.to_multiset() =~= orig.to_multiset());
    }
    out
}

/// The featured rows of a listing, their relative order kept.
pub open spec fn featured_of(s: Seq<Project>) -> Seq<Project>
    decreases s.len(),
{
    if s.len() == 0 {
        Seq::empty()
    } else {
        let rest = featured_of(s.drop_first());
        if s.first().featured {
            seq![s.first()] + rest
        } else {
            rest
        }
    }
}

proof fn lemma_featured_snoc(s: Seq<Project>, p: Project)
    ensures
        featured_of(s.push(p)) == featured_of(s) + (if p.featured {
            seq![p]
        } else {
            Seq::<Project>::empty()
        }),
    decreases s.len(),
{
    let tail = (if p.featured {
        seq![p]
    } else {
        Seq::<Project>::empty()
    });
    if s.len() == 0 {
        reveal_with_fuel(featured_of, 3);
        assert(s.push(p).drop_first() =~= Seq::<Project>::empty());
        assert(s.push(p).first() == p);
        assert(featured_of(s.push(p)) =~= featured_of(s) + tail);
    } else {
        lemma_featured_snoc(s.drop_first(), p);
        assert(s.push(p).drop_first() =~= s.drop_first().push(p));
        assert(s.push(p).first() == s.first());
        assert(featured_of(s.push(p)) =~= featured_of(s) + tail);
    }
}

/// The featured rows only, their relative order kept.
pub fn featured_only(rows: Vec<Project>) -> (r: Vec<Project>)
    ensures
        r@ == featured_of(rows@),
{
    let ghost orig = rows@;
    let mut rest = rows;
    let mut out: Vec<Project> = Vec::new();
    let ghost done: Seq<Project> = Seq::empty();
    proof {
        assert(out@ =~= featured_of(done));
        assert(done + rest@ =~= orig);
    }
    while rest.len() > 0
        invariant
            done + rest@ =~= orig,
            out@ == featured_of(done),
        decreases rest.len(),
    {
        let ghost prev_done = done;
        let keep = rest[0].featured;
        let p = rest.remove(0);
        if keep {
            out.push(p);
        }
        proof {
            lemma_featured_snoc(prev_done, p);
            done = prev_done.push(p);
            assert(out@ =~= featured_of(done));
            assert(done + rest@ =~= orig);
        }
    }
    proof {
        assert(done =~= orig);
    }
    out
}

} // verus!
