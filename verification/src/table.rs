//! The switch table: every configured switch under its name.

use crate::config::{switch_views, SwitchConfig, SwitchConfigView};
use vstd::hash_map::StringHashMap;
use vstd::prelude::*;

verus! {

/// The table that a sequence of switches describes: each switch stands under
/// its own name, and a switch replaces any earlier one of the same name.
pub open spec fn table_of(switches: Seq<SwitchConfigView>) -> Map<Seq<char>, SwitchConfigView>
    decreases switches.len(),
{
    if switches.len() == 0 {
        Map::empty()
    } else {
        table_of(switches.drop_last()).insert(switches.last().name, switches.last())
    }
}

/// Every entry stands under the name that it carries.
pub open spec fn keyed_by_name(table: Map<Seq<char>, SwitchConfigView>) -> bool {
    forall|name: Seq<char>| #[trigger]
        table.contains_key(name) ==> table[name].name == name
}

/// No two switches of the sequence share a name.
pub open spec fn distinct_names(switches: Seq<SwitchConfigView>) -> bool {
    forall|i: int, j: int|
        0 <= i < j < switches.len() ==> (#[trigger] switches[i]).name != (
        #[trigger] switches[j]).name
}

/// A name is in the table exactly when some switch of the sequence carries
/// it; the table is finite, holds no more entries than the sequence has
/// switches, and every entry stands under its own name.
pub proof fn lemma_table_names(switches: Seq<SwitchConfigView>)
    ensures
        forall|name: Seq<char>| #[trigger]
            table_of(switches).contains_key(name) <==> exists|i: int|
                0 <= i < switches.len() && (#[trigger] switches[i]).name == name,
        table_of(switches).dom().finite(),
        table_of(switches).len() <= switches.len(),
        keyed_by_name(table_of(switches)),
    decreases switches.len(),
{
    if switches.len() > 0 {
        let front = switches.drop_last();
        let last = switches.last();
        lemma_table_names(front);
        assert forall|name: Seq<char>| #[trigger]
            table_of(switches).contains_key(name) implies exists|i: int|
            0 <= i < switches.len() && (#[trigger] switches[i]).name == name by {
            if name == last.name {
                assert(switches[switches.len() - 1].name == name);
            } else {
                assert(table_of(front).contains_key(name));
                let i = choose|i: int| 0 <= i < front.len() && (#[trigger] front[i]).name == name;
                assert(switches[i].name == name);
            }
        }
        assert forall|name: Seq<char>|
            (exists|i: int|
                0 <= i < switches.len() && (#[trigger] switches[i]).name == name) implies #[trigger]
            table_of(switches).contains_key(name) by {
            let i = choose|i: int| 0 <= i < switches.len() && (#[trigger] switches[i]).name == name;
            if i < switches.len() - 1 {
                assert(front[i].name == name);
            }
        }
    }
}

/// The switch at `i` is the last of the sequence to carry its name.
pub open spec fn last_of_its_name(switches: Seq<SwitchConfigView>, i: int) -> bool {
    &&& 0 <= i < switches.len()
    &&& forall|j: int| i < j < switches.len() ==> (#[trigger] switches[j]).name != switches[i].name
}

/// Of the switches that share a name, the table holds the last one: whoever
/// looks up the name of an earlier one finds the last.
pub proof fn lemma_last_entry_wins(switches: Seq<SwitchConfigView>, i: int)
    requires
        last_of_its_name(switches, i),
    ensures
        table_of(switches).contains_key(switches[i].name),
        table_of(switches)[switches[i].name] == switches[i],
        forall|earlier: int|
            0 <= earlier < i && (#[trigger] switches[earlier]).name == switches[i].name
                ==> table_of(switches)[switches[earlier].name] == switches[i],
    decreases switches.len(),
{
    if i < switches.len() - 1 {
        let front = switches.drop_last();
        assert(front[i] == switches[i]);
        assert forall|j: int| i < j < front.len() implies (#[trigger] front[j]).name
            != front[i].name by {
            assert(front[j] == switches[j]);
        }
        lemma_last_entry_wins(front, i);
        assert(switches[switches.len() - 1].name != switches[i].name);
    }
}

/// Switches with distinct names all find their place: the table has as many
/// entries as the sequence has switches, and each switch is found under its
/// own name.
pub proof fn lemma_distinct_names_all_kept(switches: Seq<SwitchConfigView>)
    requires
        distinct_names(switches),
    ensures
        table_of(switches).dom().finite(),
        table_of(switches).len() == switches.len(),
        forall|i: int|
            0 <= i < switches.len() ==> table_of(switches).contains_key(
                (#[trigger] switches[i]).name,
            ) && table_of(switches)[switches[i].name] == switches[i],
    decreases switches.len(),
{
    lemma_table_names(switches);
    if switches.len() > 0 {
        let front = switches.drop_last();
        let last = switches.last();
        assert forall|i: int, j: int| 0 <= i < j < front.len() implies (#[trigger] front[i]).name
            != (#[trigger] front[j]).name by {
            assert(front[i] == switches[i] && front[j] == switches[j]);
        }
        lemma_distinct_names_all_kept(front);
        lemma_table_names(front);
        if table_of(front).contains_key(last.name) {
            let i = choose|i: int| 0 <= i < front.len() && (#[trigger] front[i]).name == last.name;
            assert(switches[i].name == switches[switches.len() - 1].name);
        }
        assert forall|i: int| 0 <= i < switches.len() implies table_of(switches).contains_key(
            (#[trigger] switches[i]).name,
        ) && table_of(switches)[switches[i].name] == switches[i] by {
            assert(last_of_its_name(switches, i));
            lemma_last_entry_wins(switches, i);
        }
    }
}

/// A lookup table from switch name to switch. It is built once, by
/// [`prepare_switch_configs`], and only read afterwards.
pub struct SwitchTable {
    entries: StringHashMap<SwitchConfig>,
}

impl View for SwitchTable {
    type V = Map<Seq<char>, SwitchConfigView>;

    closed spec fn view(&self) -> Map<Seq<char>, SwitchConfigView> {
        self.entries@.map_values(|switch: SwitchConfig| switch@)
    }
}

impl SwitchTable {
    /// The table is finite and every entry stands under its own name.
    pub open spec fn wf(&self) -> bool {
        self@.dom().finite() && keyed_by_name(self@)
    }

    /// Number of switches in the table.
    pub fn len(&self) -> (count: usize)
        ensures
            count == self@.len(),
    {
        proof {
            assert(self@.dom() == self.entries@.dom());
        }
        self.entries.len()
    }

    /// The switch of the given name, where the table has one.
    pub fn get(&self, name: &str) -> (found: Option<&SwitchConfig>)
        ensures
            match found {
                Some(switch) => self@.contains_key(name@) && switch@ == self@[name@],
                None => !self@.contains_key(name@),
            },
    {
        self.entries.get(name)
    }
}

/// Builds the lookup table of the given switches, each under its name. Where
/// several switches carry one name, the last of them is the one kept.
pub fn prepare_switch_configs(configs: Vec<SwitchConfig>) -> (table: SwitchTable)
    ensures
        table@ == table_of(switch_views(configs@)),
        table.wf(),
        // The last switch of each name is the one found under that name.
        forall|i: int| #[trigger]
            last_of_its_name(switch_views(configs@), i) ==> table@.contains_key(configs@[i].name@)
                && table@[configs@[i].name@] == configs@[i]@,
        // Switches with distinct names are all kept.
        distinct_names(switch_views(configs@)) ==> table@.len() == configs@.len(),
{
    let ghost all = switch_views(configs@);
    let mut entries: StringHashMap<SwitchConfig> = StringHashMap::new();
    for switch in iter: configs.into_iter()
        invariant
            switch_views(iter.seq()) == all,
            entries@.map_values(|switch: SwitchConfig| switch@) == table_of(
                all.take(iter.index()),
            ),
    {
        proof {
            let views = |switch: SwitchConfig| switch@;
            let next = all.take(iter.index() + 1);
            assert(next.drop_last() == all.take(iter.index()));
            assert(next.last() == switch@);
            assert(entries@.insert(switch.name@, switch).map_values(views) == entries@.map_values(
                views,
            ).insert(switch.name@, switch@));
        }
        let name = switch.name.clone();
        entries.insert(name, switch);
    }
    proof {
        assert(all.take(all.len() as int) == all);
        lemma_table_names(all);
        assert forall|i: int| #[trigger] last_of_its_name(all, i) implies table_of(
            all,
        ).contains_key(all[i].name) && table_of(all)[all[i].name] == all[i] by {
            lemma_last_entry_wins(all, i);
        }
        if distinct_names(all) {
            lemma_distinct_names_all_kept(all);
        }
    }
    SwitchTable { entries }
}

} // verus!
