//! The partial-update statement builder: from an ordered list of
//! (column, optional value) pairs it produces the statement text and the
//! binding list in one synchronized pass, so that the placeholder written
//! into the text at position n and the value bound at position n can never
//! drift apart.

use vstd::prelude::*;

use crate::text::dec_str;
use crate::text::usize_to_dec;
use crate::value::SqlValue;

verus! {

/// The text of a single SET clause: `<column> = $<idx>`.
pub open spec fn clause_text(col: Seq<char>, idx: nat) -> Seq<char> {
    col + " = $"@ + dec_str(idx)
}

/// The SET clauses for `cols` joined with `", "`, the clause at position i
/// carrying placeholder index i + 1.
pub open spec fn set_clauses(cols: Seq<Seq<char>>) -> Seq<char>
    decreases cols.len(),
{
    if cols.len() == 0 {
        Seq::empty()
    } else if cols.len() == 1 {
        clause_text(cols[0], 1)
    } else {
        set_clauses(cols.drop_last()) + ", "@ + clause_text(cols.last(), cols.len())
    }
}

/// The whole update statement over `table` touching `cols`, with the target
/// identifier bound by one final placeholder in the WHERE predicate.
pub open spec fn update_stmt(table: Seq<char>, cols: Seq<Seq<char>>) -> Seq<char> {
    "UPDATE "@ + table + " SET "@ + set_clauses(cols) + " WHERE id = $"@ + dec_str(
        (cols.len() + 1) as nat,
    ) + " RETURNING *"@
}

/// The (column, value) pairs of the fields that are present, in order.
pub open spec fn present(fields: Seq<(Seq<char>, Option<SqlValue>)>) -> Seq<(Seq<char>, SqlValue)>
    decreases fields.len(),
{
    if fields.len() == 0 {
        Seq::empty()
    } else {
        let rest = present(fields.drop_first());
        match fields.first().1 {
            Some(v) => seq![(fields.first().0, v)] + rest,
            None => rest,
        }
    }
}

/// The columns of the present fields, in order.
pub open spec fn present_cols(fields: Seq<(Seq<char>, Option<SqlValue>)>) -> Seq<Seq<char>> {
    present(fields).map_values(|p: (Seq<char>, SqlValue)| p.0)
}

/// The values of the present fields, in order.
pub open spec fn present_vals(fields: Seq<(Seq<char>, Option<SqlValue>)>) -> Seq<SqlValue> {
    present(fields).map_values(|p: (Seq<char>, SqlValue)| p.1)
}

/// The view of an executable field list.
pub open spec fn fields_view(s: Seq<(&str, Option<SqlValue>)>) -> Seq<(Seq<char>, Option<SqlValue>)> {
    s.map_values(|f: (&str, Option<SqlValue>)| (f.0@, f.1))
}

proof fn lemma_present_snoc(fields: Seq<(Seq<char>, Option<SqlValue>)>, f: (Seq<char>, Option<SqlValue>))
    ensures
        present(fields.push(f)) == present(fields) + (match f.1 {
            Some(v) => seq![(f.0, v)],
            None => Seq::<(Seq<char>, SqlValue)>::empty(),
        }),
    decreases fields.len(),
{
    let tail = (match f.1 {
        Some(v) => seq![(f.0, v)],
        None => Seq::<(Seq<char>, SqlValue)>::empty(),
    });
    if fields.len() == 0 {
        reveal_with_fuel(present, 3);
        assert(fields.push(f).drop_first() =~= Seq::<(Seq<char>, Option<SqlValue>)>::empty());
        assert(fields.push(f).first() == f);
        assert(present(fields.push(f)) =~= present(fields) + tail);
    } else {
        lemma_present_snoc(fields.drop_first(), f);
        assert(fields.push(f).drop_first() =~= fields.drop_first().push(f));
        assert(fields.push(f).first() == fields.first());
        assert(present(fields.push(f)) =~= present(fields) + tail);
    }
}

proof fn lemma_present_len(fields: Seq<(Seq<char>, Option<SqlValue>)>)
    ensures
        present(fields).len() <= fields.len(),
    decreases fields.len(),
{
    if fields.len() > 0 {
        lemma_present_len(fields.drop_first());
    }
}

/// The builder itself: clause text and binding list grow together, never
/// separately. `cols` records, for the contracts, which columns were taken.
pub struct UpdateBuilder {
    text: String,
    params: Vec<SqlValue>,
    cols: Ghost<Seq<Seq<char>>>,
}

impl UpdateBuilder {
    /// The columns appended so far, in order.
    pub closed spec fn columns(self) -> Seq<Seq<char>> {
        self.cols@
    }

    /// The values appended so far, in order.
    pub closed spec fn bindings(self) -> Seq<SqlValue> {
        self.params@
    }

    /// Clause text and binding list always describe the same columns.
    pub closed spec fn wf(self) -> bool {
        self.text@ == set_clauses(self.cols@) && self.params@.len() == self.cols@.len()
    }

    pub fn new() -> (r: UpdateBuilder)
        ensures
            r.wf(),
            r.columns() == Seq::<Seq<char>>::empty(),
            r.bindings() == Seq::<SqlValue>::empty(),
    {
        let r = UpdateBuilder { text: String::new(), params: Vec::new(), cols: Ghost(Seq::empty()) };
        proof {
            assert(r.text@ =~= set_clauses(r.cols@));
        }
        r
    }

    /// Take one (column, optional value) pair: when the value is present the
    /// clause list and the binding list grow together, in this one place;
    /// when it is absent the builder is left exactly as it was.
    pub fn field(&mut self, col: &str, v: Option<SqlValue>)
        requires
            old(self).wf(),
            old(self).bindings().len() < usize::MAX,
        ensures
            final(self).wf(),
            (v matches Some(x) ==> final(self).columns() == old(self).columns().push(col@)
                && final(self).bindings() == old(self).bindings().push(x)),
            v is None ==> *final(self) == *old(self),
    {
        match v {
            None => {},
            Some(x) => {
                let ghost prev = self.cols@;
                if self.params.len() > 0 {
                    self.text.append(", ");
                }
                self.text.append(col);
                self.text.append(" = $");
                let idx: usize = self.params.len() + 1;
                let idx_text = usize_to_dec(idx);
                self.text.append(idx_text.as_str());
                self.params.push(x);
                proof {
                    self.cols@ = prev.push(col@);
                    assert(self.cols@.drop_last() =~= prev);
                    assert(self.text@ =~= set_clauses(self.cols@));
                }
            },
        }
    }

    /// Close the builder over a table and identifier. With no clause there is
    /// no statement at all: the caller is to perform no write.
    pub fn finish(self, table: &str, id: i32) -> (r: Option<(String, Vec<SqlValue>)>)
        requires
            self.wf(),
            self.bindings().len() < usize::MAX,
        ensures
            r is None <==> self.columns().len() == 0,
            (r matches Some(p) ==> p.0@ == update_stmt(table@, self.columns()) && p.1@
                == self.bindings().push(SqlValue::Int(id))),
    {
        if self.params.len() == 0 {
            None
        } else {
            let mut stmt = String::from_str("UPDATE ");
            stmt.append(table);
            stmt.append(" SET ");
            stmt.append(self.text.as_str());
            stmt.append(" WHERE id = $");
            let idx_text = usize_to_dec(self.params.len() + 1);
            stmt.append(idx_text.as_str());
            stmt.append(" RETURNING *");
            let mut params = self.params;
            proof {
                assert(stmt@ =~= update_stmt(table@, self.cols@));
            }
            params.push(SqlValue::Int(id));
            Some((stmt, params))
        }
    }
}

/// Build the update plan for one table from an ordered field list: the
/// statement text and the binding list come out of one pass, or nothing when
/// no field is present.
pub fn build_update(table: &str, fields: Vec<(&str, Option<SqlValue>)>, id: i32) -> (r: Option<
    (String, Vec<SqlValue>),
>)
    requires
        fields@.len() < usize::MAX,
    ensures
        r is None <==> present(fields_view(fields@)).len() == 0,
        (r matches Some(p) ==> p.0@ == update_stmt(table@, present_cols(fields_view(fields@)))
            && p.1@ == present_vals(fields_view(fields@)).push(SqlValue::Int(id))),
{
    let ghost all = fields_view(fields@);
    let mut rest = fields;
    let mut b = UpdateBuilder::new();
    let ghost done: Seq<(Seq<char>, Option<SqlValue>)> = Seq::empty();
    proof {
        assert(present(done) =~= Seq::<(Seq<char>, SqlValue)>::empty());
        assert(done + fields_view(rest@) =~= all);
    }
    while rest.len() > 0
        invariant
            b.wf(),
            all.len() < usize::MAX,
            done + fields_view(rest@) =~= all,
            b.columns() == present(done).map_values(|p: (Seq<char>, SqlValue)| p.0),
            b.bindings() == present(done).map_values(|p: (Seq<char>, SqlValue)| p.1),
            present(done).len() <= done.len(),
        decreases rest.len(),
    {
        let f = rest.remove(0);
        proof {
            assert(done.len() < all.len());
            lemma_present_snoc(done, (f.0@, f.1));
        }
        b.field(f.0, f.1);
        proof {
            done = done.push((f.0@, f.1));
            assert(done + fields_view(rest@) =~= all);
            assert(b.columns() =~= present(done).map_values(|p: (Seq<char>, SqlValue)| p.0));
            assert(b.bindings() =~= present(done).map_values(|p: (Seq<char>, SqlValue)| p.1));
            lemma_present_len(done);
        }
    }
    proof {
        assert(done =~= all);
    }
    b.finish(table, id)
}

/// The clause list of a generated statement: position i names column i with
/// placeholder i + 1.
pub open spec fn clause_seq(cols: Seq<Seq<char>>) -> Seq<Seq<char>> {
    Seq::new(cols.len(), |i: int| clause_text(cols[i], (i + 1) as nat))
}

/// Text parts joined with `", "`.
pub open spec fn joined(parts: Seq<Seq<char>>) -> Seq<char>
    decreases parts.len(),
{
    if parts.len() == 0 {
        Seq::empty()
    } else if parts.len() == 1 {
        parts[0]
    } else {
        joined(parts.drop_last()) + ", "@ + parts.last()
    }
}

/// The SET clause of a generated statement is the clause list joined in
/// order: the clause at position n carries placeholder index n + 1.
pub proof fn lemma_set_clause_shape(cols: Seq<Seq<char>>)
    ensures
        set_clauses(cols) == joined(clause_seq(cols)),
        forall|n: int|
            0 <= n < cols.len() ==> clause_seq(cols)[n] == clause_text(cols[n], (n + 1) as nat),
    decreases cols.len(),
{
    if cols.len() <= 1 {
        assert(set_clauses(cols) =~= joined(clause_seq(cols)));
    } else {
        lemma_set_clause_shape(cols.drop_last());
        assert(clause_seq(cols.drop_last()) =~= clause_seq(cols).drop_last());
        assert(set_clauses(cols) =~= joined(clause_seq(cols)));
    }
}

/// Law: in a generated update plan the clause at position n names the column
/// of the n-th present field with placeholder index n + 1, and the binding at
/// position n is that same field's value; the final binding is the identifier,
/// bound by the WHERE placeholder, whose index is one past the clause count.
pub proof fn lemma_placeholder_alignment(
    table: Seq<char>,
    fields: Seq<(Seq<char>, Option<SqlValue>)>,
    id: i32,
    n: int,
)
    requires
        0 <= n < present(fields).len(),
    ensures
        update_stmt(table, present_cols(fields)) == "UPDATE "@ + table + " SET "@ + joined(
            clause_seq(present_cols(fields)),
        ) + " WHERE id = $"@ + dec_str((present(fields).len() + 1) as nat) + " RETURNING *"@,
        clause_seq(present_cols(fields))[n] == clause_text(present(fields)[n].0, (n + 1) as nat),
        present_vals(fields).push(SqlValue::Int(id))[n] == present(fields)[n].1,
        present_vals(fields).push(SqlValue::Int(id)).last() == SqlValue::Int(id),
{
    lemma_set_clause_shape(present_cols(fields));
}

} // verus!
