//! Wire-names: how an event's logical name is namespaced by its owning plugin.
use vstd::prelude::*;
use vstd::string::StringExecFns;

verus! {

/// The character that separates a plugin's name from an event's logical name.
pub open spec fn separator() -> char {
    ':'
}

/// The wire-name of an event with logical name `name`, owned by `plugin`
/// (`None` is the host application).
pub open spec fn wire_name(plugin: Option<Seq<char>>, name: Seq<char>) -> Seq<char> {
    match plugin {
        None => name,
        Some(p) => p + seq![separator()] + name,
    }
}

/// The namespace that owns a set of events: the host application, or a named plugin.
#[derive(Clone, Copy)]
pub struct PluginName {
    pub name: Option<&'static str>,
}

impl View for PluginName {
    type V = Option<Seq<char>>;

    open spec fn view(&self) -> Option<Seq<char>> {
        match self.name {
            None => None,
            Some(s) => Some(s@),
        }
    }
}

impl PluginName {
    /// The host application's own namespace.
    pub fn app() -> (r: PluginName)
        ensures
            r@ == None::<Seq<char>>,
    {
        PluginName { name: None }
    }

    /// The namespace of the plugin called `name`.
    pub fn new(name: &'static str) -> (r: PluginName)
        ensures
            r@ == Some(name@),
    {
        PluginName { name: Some(name) }
    }

    /// The wire-name of the event called `input` in this namespace.
    pub fn apply_as_prefix(&self, input: &str) -> (r: String)
        ensures
            r@ == wire_name(self@, input@),
    {
        match self.name {
            None => String::from_str(input),
            Some(p) => {
                let mut s = String::from_str(p);
                s.append(":");
                proof {
                    reveal_strlit(":");
                    assert(":"@ =~= seq![separator()]);
                }
                s.append(input);
                s
            },
        }
    }
}

/// An event owned by the host application goes on the wire under its logical
/// name alone.
pub proof fn lemma_host_wire_name_is_logical_name(name: Seq<char>)
    ensures
        wire_name(None, name) == name,
{
}

/// Two different namespaces never give the same wire-name to one logical name.
pub proof fn lemma_distinct_plugins_distinct_wire_names(
    a: Option<Seq<char>>,
    b: Option<Seq<char>>,
    name: Seq<char>,
)
    requires
        a != b,
    ensures
        wire_name(a, name) != wire_name(b, name),
{
    match (a, b) {
        (Some(pa), Some(pb)) => {
            if wire_name(a, name) == wire_name(b, name) {
                assert(pa.len() == pb.len());
                assert(wire_name(a, name).subrange(0, pa.len() as int) =~= pa);
                assert(wire_name(b, name).subrange(0, pb.len() as int) =~= pb);
            }
        },
        (Some(pa), None) => {
            assert(wire_name(a, name).len() > name.len());
        },
        (None, Some(pb)) => {
            assert(wire_name(b, name).len() > name.len());
        },
        (None, None) => {},
    }
}

/// Whether a name leaves the separator out.
pub open spec fn free_of_separator(s: Seq<char>) -> bool {
    forall|i: int| 0 <= i < s.len() ==> s[i] != separator()
}

/// Whether a namespace's name, if it has one, leaves the separator out.
pub open spec fn plugin_free_of_separator(p: Option<Seq<char>>) -> bool {
    match p {
        None => true,
        Some(n) => free_of_separator(n),
    }
}

/// Where no plugin name and no logical name holds the separator, two events
/// that differ in their namespace or in their logical name never share a
/// wire-name.
pub proof fn lemma_wire_names_unique(
    a: Option<Seq<char>>,
    name_a: Seq<char>,
    b: Option<Seq<char>>,
    name_b: Seq<char>,
)
    requires
        plugin_free_of_separator(a),
        plugin_free_of_separator(b),
        free_of_separator(name_a),
        free_of_separator(name_b),
        a != b || name_a != name_b,
    ensures
        wire_name(a, name_a) != wire_name(b, name_b),
{
    let wa = wire_name(a, name_a);
    let wb = wire_name(b, name_b);
    if wa == wb {
        match (a, b) {
            (None, None) => {},
            (Some(pa), None) => {
                assert(wa[pa.len() as int] == separator());
                assert(wb[pa.len() as int] == name_b[pa.len() as int]);
            },
            (None, Some(pb)) => {
                assert(wb[pb.len() as int] == separator());
                assert(wa[pb.len() as int] == name_a[pb.len() as int]);
            },
            (Some(pa), Some(pb)) => {
                if pa.len() < pb.len() {
                    assert(wa[pa.len() as int] == separator());
                    assert(wb[pa.len() as int] == pb[pa.len() as int]);
                } else if pb.len() < pa.len() {
                    assert(wb[pb.len() as int] == separator());
                    assert(wa[pb.len() as int] == pa[pb.len() as int]);
                } else {
                    assert(wa.subrange(0, pa.len() as int) =~= pa);
                    assert(wb.subrange(0, pb.len() as int) =~= pb);
                    assert(wa.subrange(pa.len() as int + 1, wa.len() as int) =~= name_a);
                    assert(wb.subrange(pb.len() as int + 1, wb.len() as int) =~= name_b);
                }
            },
        }
    }
}

} // verus!
