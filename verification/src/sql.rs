//! Text of the account queries that are built from request values.
use vstd::prelude::*;
use crate::numtext::{i64_to_string, int_to_decimal, push_char};

verus! {

/// Numbers in decimal, separated by commas.
pub open spec fn join_ids(ids: Seq<i64>) -> Seq<char>
    decreases ids.len(),
{
    if ids.len() == 0 {
        Seq::empty()
    } else if ids.len() == 1 {
        int_to_decimal(ids[0] as int)
    } else {
        join_ids(ids.drop_last()) + ","@ + int_to_decimal(ids.last() as int)
    }
}

/// A text with each `'` doubled, as SQL writes a quote inside a quoted
/// literal.
pub open spec fn sql_escape(s: Seq<char>) -> Seq<char>
    decreases s.len(),
{
    if s.len() == 0 {
        s
    } else {
        (if s[0] == '\'' {
            seq!['\'', '\'']
        } else {
            seq![s[0]]
        }) + sql_escape(s.skip(1))
    }
}

/// What SQL reads inside a quoted literal: each doubled `'` stands for one.
pub open spec fn sql_unescape(t: Seq<char>) -> Seq<char>
    decreases t.len(),
{
    if t.len() == 0 {
        t
    } else if t.len() >= 2 && t[0] == '\'' && t[1] == '\'' {
        seq!['\''] + sql_unescape(t.skip(2))
    } else {
        seq![t[0]] + sql_unescape(t.skip(1))
    }
}

/// Texts as quoted SQL literals, separated by commas.
pub open spec fn join_quoted(items: Seq<Seq<char>>) -> Seq<char>
    decreases items.len(),
{
    if items.len() == 0 {
        Seq::empty()
    } else if items.len() == 1 {
        "'"@ + sql_escape(items[0]) + "'"@
    } else {
        join_quoted(items.drop_last()) + ","@ + "'"@ + sql_escape(items.last()) + "'"@
    }
}

proof fn lemma_escape_push(s: Seq<char>, c: char)
    ensures
        sql_escape(s.push(c)) == sql_escape(s) + (if c == '\'' {
            seq!['\'', '\'']
        } else {
            seq![c]
        }),
    decreases s.len(),
{
    let e: Seq<char> = if c == '\'' { seq!['\'', '\''] } else { seq![c] };
    if s.len() == 0 {
        let t = s.push(c);
        assert(t[0] == c);
        assert(t.skip(1) =~= Seq::<char>::empty());
        assert(sql_escape(t.skip(1)) == Seq::<char>::empty());
        assert(sql_escape(s) == Seq::<char>::empty());
        assert(sql_escape(t) =~= e);
    } else {
        assert(s.push(c)[0] == s[0]);
        assert(s.push(c).skip(1) =~= s.skip(1).push(c));
        lemma_escape_push(s.skip(1), c);
        let h: Seq<char> = if s[0] == '\'' { seq!['\'', '\''] } else { seq![s[0]] };
        assert(h + (sql_escape(s.skip(1)) + e) =~= (h + sql_escape(s.skip(1))) + e);
    }
}

/// A quoted asset reads back as the asset: the doubled quotes that
/// `batch_get_sql` writes stand for the asset's own quotes, so no asset can
/// end its literal early or add to the query.
pub proof fn law_quoted_asset_reads_back(s: Seq<char>)
    ensures
        sql_unescape(sql_escape(s)) == s,
    decreases s.len(),
{
    if s.len() > 0 {
        law_quoted_asset_reads_back(s.skip(1));
        let t = sql_escape(s);
        if s[0] == '\'' {
            assert(t.skip(2) =~= sql_escape(s.skip(1)));
        } else {
            assert(t[0] == s[0]);
            assert(t.skip(1) =~= sql_escape(s.skip(1)));
        }
        assert(seq![s[0]] + s.skip(1) =~= s);
    }
}

pub open spec fn views(items: Seq<String>) -> Seq<Seq<char>> {
    Seq::new(items.len(), |i: int| items[i]@)
}

/// The query text of a batch balance lookup.
pub open spec fn batch_get_sql_spec(user_ids: Seq<i64>, assets: Seq<String>) -> Seq<char> {
    "SELECT * FROM accounts WHERE user_id IN ("@ + join_ids(user_ids) + ") AND asset IN ("@
        + join_quoted(views(assets)) + ")"@
}

/// Appends `text` to `out` with each `'` doubled.
fn append_escaped(out: &mut String, text: &str)
    ensures
        final(out)@ == old(out)@ + sql_escape(text@),
{
    let ghost start = out@;
    let n = text.unicode_len();
    let mut i: usize = 0;
    while i < n
        invariant
            n == text@.len(),
            i <= n,
            out@ == start + sql_escape(text@.take(i as int)),
        decreases n - i,
    {
        let c = text.get_char(i);
        proof {
            lemma_escape_push(text@.take(i as int), c);
            assert(text@.take(i + 1) =~= text@.take(i as int).push(c));
        }
        if c == '\'' {
            push_char(out, '\'');
            push_char(out, '\'');
        } else {
            push_char(out, c);
        }
        i = i + 1;
    }
    assert(text@.take(n as int) =~= text@);
}

/// The query of a batch balance lookup, with the ids and the assets (as
/// quoted literals with their quotes doubled) written into it; `None` when
/// either list is empty (the lookup then answers no accounts without asking
/// the database).
pub fn batch_get_sql(user_ids: &[i64], assets: &[String]) -> (r: Option<String>)
    ensures
        user_ids@.len() == 0 || assets@.len() == 0 ==> r is None,
        user_ids@.len() > 0 && assets@.len() > 0 ==> (r matches Some(q) && q@ == batch_get_sql_spec(
            user_ids@,
            assets@,
        )),
{
    if user_ids.len() == 0 || assets.len() == 0 {
        return None;
    }
    let mut ids = String::new();
    let mut i: usize = 0;
    while i < user_ids.len()
        invariant
            i <= user_ids@.len(),
            ids@ == join_ids(user_ids@.take(i as int)),
        decreases user_ids@.len() - i,
    {
        if i > 0 {
            ids.append(",");
        }
        ids.append(i64_to_string(user_ids[i]).as_str());
        assert(user_ids@.take(i + 1).drop_last() =~= user_ids@.take(i as int));
        i = i + 1;
    }
    assert(user_ids@.take(user_ids@.len() as int) =~= user_ids@);
    let mut quoted = String::new();
    let mut j: usize = 0;
    while j < assets.len()
        invariant
            j <= assets@.len(),
            quoted@ == join_quoted(views(assets@.take(j as int))),
        decreases assets@.len() - j,
    {
        if j > 0 {
            quoted.append(",");
        }
        quoted.append("'");
        append_escaped(&mut quoted, assets[j].as_str());
        quoted.append("'");
        assert(views(assets@.take(j + 1)).drop_last() =~= views(assets@.take(j as int)));
        j = j + 1;
    }
    assert(assets@.take(assets@.len() as int) =~= assets@);
    let mut q = String::from_str("SELECT * FROM accounts WHERE user_id IN (");
    q.append(ids.as_str());
    q.append(") AND asset IN (");
    q.append(quoted.as_str());
    q.append(")");
    Some(q)
}

} // verus!
