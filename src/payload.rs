//! The JSON text of an action group, as the execution endpoint takes it.
//!
//! Members appear in declaration order, `null` for an absent label, with no
//! whitespace; each string is quoted and escaped by `serde_json`.
use crate::encoding::{json_quoted, quote_json};
use crate::error::string_views;
use crate::types::{Action, ActionGroup, Command};
use vstd::prelude::*;
use vstd::string::StringExecFns;

verus! {

/// The parts written one after another with `sep` between each two.
pub open spec fn joined(parts: Seq<Seq<char>>, sep: Seq<char>) -> Seq<char>
    decreases parts.len(),
{
    if parts.len() == 0 {
        Seq::empty()
    } else if parts.len() == 1 {
        parts[0]
    } else {
        joined(parts.drop_last(), sep) + sep + parts.last()
    }
}

pub open spec fn json_array(parts: Seq<Seq<char>>) -> Seq<char> {
    "["@ + joined(parts, ","@) + "]"@
}

pub open spec fn quoted_parts(items: Seq<String>) -> Seq<Seq<char>> {
    items.map_values(|s: String| json_quoted(s@))
}

pub open spec fn command_json(c: Command) -> Seq<char> {
    "{\"name\":"@ + json_quoted(c.name@) + ",\"parameters\":"@ + json_array(
        quoted_parts(c.parameters@),
    ) + "}"@
}

pub open spec fn command_parts(cs: Seq<Command>) -> Seq<Seq<char>> {
    cs.map_values(|c: Command| command_json(c))
}

pub open spec fn action_json(a: Action) -> Seq<char> {
    "{\"deviceURL\":"@ + json_quoted(a.device_url@) + ",\"commands\":"@ + json_array(
        command_parts(a.commands@),
    ) + "}"@
}

pub open spec fn action_parts(acts: Seq<Action>) -> Seq<Seq<char>> {
    acts.map_values(|a: Action| action_json(a))
}

pub open spec fn label_json(label: Option<String>) -> Seq<char> {
    match label {
        Some(s) => json_quoted(s@),
        None => "null"@,
    }
}

/// The JSON text of an action group.
pub open spec fn action_group_json(g: ActionGroup) -> Seq<char> {
    "{\"label\":"@ + label_json(g.label) + ",\"actions\":"@ + json_array(action_parts(g.actions@))
        + "}"@
}

pub(crate) proof fn lemma_joined_step(parts: Seq<Seq<char>>, i: int, sep: Seq<char>)
    requires
        0 <= i < parts.len(),
    ensures
        joined(parts.subrange(0, i + 1), sep) == if i == 0 {
            parts[0]
        } else {
            joined(parts.subrange(0, i), sep) + sep + parts[i]
        },
{
    assert(parts.subrange(0, i + 1).drop_last() =~= parts.subrange(0, i));
}

/// The texts written one after another with `sep` between each two.
pub fn join_texts(parts: &Vec<String>, sep: &str) -> (r: String)
    ensures
        r@ == joined(string_views(parts@), sep@),
{
    let ghost views = string_views(parts@);
    let mut out = String::new();
    let mut i: usize = 0;
    while i < parts.len()
        invariant
            views == string_views(parts@),
            i <= parts@.len(),
            out@ == joined(views.subrange(0, i as int), sep@),
        decreases parts.len() - i,
    {
        proof {
            lemma_joined_step(views, i as int, sep@);
        }
        if i > 0 {
            out.append(sep);
        }
        out.append(parts[i].as_str());
        i += 1;
    }
    assert(views.subrange(0, parts@.len() as int) =~= views);
    out
}

/// Appends the quoted strings as a JSON array.
fn write_string_array(out: &mut String, items: &Vec<String>)
    ensures
        final(out)@ == old(out)@ + json_array(quoted_parts(items@)),
{
    let ghost start = out@;
    let ghost parts = quoted_parts(items@);
    out.append("[");
    let mut i: usize = 0;
    while i < items.len()
        invariant
            parts == quoted_parts(items@),
            i <= items@.len(),
            out@ == start + "["@ + joined(parts.subrange(0, i as int), ","@),
        decreases items.len() - i,
    {
        proof {
            lemma_joined_step(parts, i as int, ","@);
        }
        if i > 0 {
            out.append(",");
        }
        let q = quote_json(items[i].as_str());
        out.append(q.as_str());
        i += 1;
    }
    assert(parts.subrange(0, items@.len() as int) =~= parts);
    out.append("]");
}

fn write_command(out: &mut String, c: &Command)
    ensures
        final(out)@ == old(out)@ + command_json(*c),
{
    out.append("{\"name\":");
    let q = quote_json(c.name.as_str());
    out.append(q.as_str());
    out.append(",\"parameters\":");
    write_string_array(out, &c.parameters);
    out.append("}");
}

fn write_action(out: &mut String, a: &Action)
    ensures
        final(out)@ == old(out)@ + action_json(*a),
{
    let ghost start = out@;
    out.append("{\"deviceURL\":");
    let q = quote_json(a.device_url.as_str());
    out.append(q.as_str());
    out.append(",\"commands\":[");
    let ghost head = out@;
    let ghost parts = command_parts(a.commands@);
    let mut i: usize = 0;
    while i < a.commands.len()
        invariant
            parts == command_parts(a.commands@),
            i <= a.commands@.len(),
            out@ == head + joined(parts.subrange(0, i as int), ","@),
        decreases a.commands.len() - i,
    {
        proof {
            lemma_joined_step(parts, i as int, ","@);
        }
        if i > 0 {
            out.append(",");
        }
        write_command(out, &a.commands[i]);
        i += 1;
    }
    assert(parts.subrange(0, a.commands@.len() as int) =~= parts);
    out.append("]}");
    proof {
        reveal_strlit("]}");
        reveal_strlit("]");
        reveal_strlit("}");
        reveal_strlit("[");
        reveal_strlit(",\"commands\":[");
        reveal_strlit(",\"commands\":");
    }
    assert(out@ =~= start + action_json(*a));
}

/// The JSON text of an action group.
pub fn action_group_to_json(g: &ActionGroup) -> (r: String)
    ensures
        r@ == action_group_json(*g),
{
    let mut out = String::from_str("{\"label\":");
    match &g.label {
        Some(s) => {
            let q = quote_json(s.as_str());
            out.append(q.as_str());
        },
        None => out.append("null"),
    }
    out.append(",\"actions\":[");
    let ghost head = out@;
    let ghost parts = action_parts(g.actions@);
    let mut i: usize = 0;
    while i < g.actions.len()
        invariant
            parts == action_parts(g.actions@),
            i <= g.actions@.len(),
            out@ == head + joined(parts.subrange(0, i as int), ","@),
        decreases g.actions.len() - i,
    {
        proof {
            lemma_joined_step(parts, i as int, ","@);
        }
        if i > 0 {
            out.append(",");
        }
        write_action(&mut out, &g.actions[i]);
        i += 1;
    }
    assert(parts.subrange(0, g.actions@.len() as int) =~= parts);
    out.append("]}");
    proof {
        reveal_strlit("]}");
        reveal_strlit("]");
        reveal_strlit("}");
        reveal_strlit("[");
        reveal_strlit(",\"actions\":[");
        reveal_strlit(",\"actions\":");
    }
    assert(out@ =~= action_group_json(*g));
    out
}

} // verus!
