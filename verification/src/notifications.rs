//! Rewriting the notification channel references of a dashboard, so that the
//! alerts of the copy reach channels that exist on the destination.

use crate::channels::ChannelMap;
use crate::document::{
    panel_bags, rule_bags, unknown_fields, AlertRule, AlertRuleModel, Dashboard, DashboardModel,
    NotificationRefModel, PanelModel,
};
use vstd::prelude::*;

verus! {

/// A channel reference for which the table has no entry.
#[derive(Debug, Clone, PartialEq)]
pub struct MappingError {
    /// The identifier that could not be mapped.
    pub channel_id: String,
}

/// The channel identifiers of one alert rule, in the order of its references.
pub open spec fn rule_ids(rule: AlertRuleModel) -> Seq<Seq<char>> {
    rule.notifications.map_values(|r: NotificationRefModel| r.channel_id)
}

/// The channel identifiers of one panel: none where it has no alert rule.
pub open spec fn panel_ids(panel: PanelModel) -> Seq<Seq<char>> {
    match panel.alert {
        Some(rule) => rule_ids(rule),
        None => Seq::empty(),
    }
}

/// Every channel identifier that a sequence of panels refers to, in panel
/// order and, within a panel, in the order of its references.
pub open spec fn channel_ids(panels: Seq<PanelModel>) -> Seq<Seq<char>>
    decreases panels.len(),
{
    if panels.len() == 0 {
        Seq::empty()
    } else {
        channel_ids(panels.drop_last()) + panel_ids(panels.last())
    }
}

/// The first of `ids` that is no key of `table`, if there is one.
pub open spec fn first_unmapped(ids: Seq<Seq<char>>, table: Map<Seq<char>, Seq<char>>) -> Option<
    Seq<char>,
>
    decreases ids.len(),
{
    if ids.len() == 0 {
        None
    } else if !table.contains_key(ids.first()) {
        Some(ids.first())
    } else {
        first_unmapped(ids.drop_first(), table)
    }
}

/// A reference with its channel replaced by the one that the table gives.
pub open spec fn remap_ref(
    r: NotificationRefModel,
    table: Map<Seq<char>, Seq<char>>,
) -> NotificationRefModel {
    NotificationRefModel { channel_id: table[r.channel_id], rest: r.rest }
}

/// An alert rule with each of its references remapped.
pub open spec fn remap_rule(
    rule: AlertRuleModel,
    table: Map<Seq<char>, Seq<char>>,
) -> AlertRuleModel {
    AlertRuleModel {
        notifications: rule.notifications.map_values(
            |r: NotificationRefModel| remap_ref(r, table),
        ),
        rest: rule.rest,
    }
}

/// A panel with its alert rule, if it has one, remapped.
pub open spec fn remap_panel(panel: PanelModel, table: Map<Seq<char>, Seq<char>>) -> PanelModel {
    PanelModel {
        alert: match panel.alert {
            Some(rule) => Some(remap_rule(rule, table)),
            None => None,
        },
        rest: panel.rest,
    }
}

/// A dashboard with every channel reference remapped and nothing else changed.
pub open spec fn remap(doc: DashboardModel, table: Map<Seq<char>, Seq<char>>) -> DashboardModel {
    DashboardModel {
        id: doc.id,
        uid: doc.uid,
        version: doc.version,
        panels: doc.panels.map_values(|p: PanelModel| remap_panel(p, table)),
        rest: doc.rest,
    }
}

/// No identifier is unmapped exactly when the table has every one of them as a key.
pub proof fn lemma_all_mapped(ids: Seq<Seq<char>>, table: Map<Seq<char>, Seq<char>>)
    ensures
        first_unmapped(ids, table) is None <==> forall|i: int|
            0 <= i < ids.len() ==> table.contains_key(#[trigger] ids[i]),
    decreases ids.len(),
{
    if ids.len() > 0 {
        let rest = ids.drop_first();
        lemma_all_mapped(rest, table);
        if first_unmapped(ids, table) is None {
            assert forall|i: int| 0 <= i < ids.len() implies table.contains_key(
                #[trigger] ids[i],
            ) by {
                if i > 0 {
                    assert(ids[i] == rest[i - 1]);
                }
            }
        }
        if forall|i: int| 0 <= i < ids.len() ==> table.contains_key(#[trigger] ids[i]) {
            assert(table.contains_key(ids[0]));
            assert forall|i: int| 0 <= i < rest.len() implies table.contains_key(
                #[trigger] rest[i],
            ) by {
                assert(rest[i] == ids[i + 1]);
            }
        }
    }
}

/// In a concatenation the first unmapped identifier is that of the front
/// part, and that of the back part only where the front part has none.
pub proof fn lemma_first_unmapped_concat(
    front: Seq<Seq<char>>,
    back: Seq<Seq<char>>,
    table: Map<Seq<char>, Seq<char>>,
)
    ensures
        first_unmapped(front + back, table) == match first_unmapped(front, table) {
            Some(id) => Some(id),
            None => first_unmapped(back, table),
        },
    decreases front.len(),
{
    if front.len() == 0 {
        assert(front + back =~= back);
    } else {
        assert((front + back).drop_first() =~= front.drop_first() + back);
        lemma_first_unmapped_concat(front.drop_first(), back, table);
    }
}

/// The identifiers of a sequence of panels are those of its first `n` panels
/// followed by those of the others.
pub proof fn lemma_channel_ids_split(panels: Seq<PanelModel>, n: int)
    requires
        0 <= n <= panels.len(),
    ensures
        channel_ids(panels) == channel_ids(panels.take(n)) + channel_ids(panels.skip(n)),
    decreases panels.len(),
{
    if n == panels.len() {
        assert(panels.take(n) =~= panels);
        assert(channel_ids(panels.skip(n)) =~= Seq::<Seq<char>>::empty());
        assert(channel_ids(panels) =~= channel_ids(panels) + Seq::<Seq<char>>::empty());
    } else {
        let shorter = panels.drop_last();
        lemma_channel_ids_split(shorter, n);
        assert(shorter.take(n) =~= panels.take(n));
        assert(shorter.skip(n) =~= panels.skip(n).drop_last());
        assert(panels.skip(n).last() == panels.last());
        assert(channel_ids(panels) =~= channel_ids(panels.take(n)) + channel_ids(
            panels.skip(n),
        ));
    }
}

/// The identifiers of the first `n + 1` panels are those of the first `n`
/// followed by those of the panel at `n`.
pub proof fn lemma_channel_ids_step(panels: Seq<PanelModel>, n: int)
    requires
        0 <= n < panels.len(),
    ensures
        channel_ids(panels.take(n + 1)) == channel_ids(panels.take(n)) + panel_ids(panels[n]),
{
    assert(panels.take(n + 1).drop_last() =~= panels.take(n));
}

/// Where no identifier of a dashboard is unmapped, none of any one panel is.
pub proof fn lemma_panel_mapped(
    panels: Seq<PanelModel>,
    n: int,
    table: Map<Seq<char>, Seq<char>>,
)
    requires
        0 <= n < panels.len(),
        first_unmapped(channel_ids(panels), table) is None,
    ensures
        first_unmapped(panel_ids(panels[n]), table) is None,
{
    lemma_channel_ids_split(panels, n + 1);
    lemma_channel_ids_step(panels, n);
    lemma_first_unmapped_concat(
        channel_ids(panels.take(n + 1)),
        channel_ids(panels.skip(n + 1)),
        table,
    );
    lemma_first_unmapped_concat(channel_ids(panels.take(n)), panel_ids(panels[n]), table);
}

/// The identifier that `first_unmapped` names stands in the sequence, is no
/// key of the table, and every identifier before it is one.
pub proof fn law_first_unmapped_is_first(ids: Seq<Seq<char>>, table: Map<Seq<char>, Seq<char>>)
    requires
        first_unmapped(ids, table) is Some,
    ensures
        exists|k: int|
            0 <= k < ids.len() && #[trigger] ids[k] == first_unmapped(ids, table)->0
                && !table.contains_key(ids[k]) && forall|j: int|
                0 <= j < k ==> table.contains_key(#[trigger] ids[j]),
    decreases ids.len(),
{
    if !table.contains_key(ids.first()) {
        assert(ids[0] == first_unmapped(ids, table)->0);
    } else {
        let rest = ids.drop_first();
        law_first_unmapped_is_first(rest, table);
        let k = choose|k: int|
            0 <= k < rest.len() && #[trigger] rest[k] == first_unmapped(rest, table)->0
                && !table.contains_key(rest[k]) && forall|j: int|
                0 <= j < k ==> table.contains_key(#[trigger] rest[j]);
        assert(ids[k + 1] == rest[k]);
        assert forall|j: int| 0 <= j < k + 1 implies table.contains_key(#[trigger] ids[j]) by {
            if j > 0 {
                assert(ids[j] == rest[j - 1]);
            }
        }
    }
}

/// Whether the table has an entry for the channel of every reference of
/// every alert rule of the panels.
pub open spec fn every_reference_mapped(
    panels: Seq<PanelModel>,
    table: Map<Seq<char>, Seq<char>>,
) -> bool {
    forall|i: int, j: int|
        0 <= i < panels.len() && panels[i].alert is Some && 0 <= j
            < panels[i].alert->0.notifications.len() ==> table.contains_key(
            (#[trigger] panels[i].alert->0.notifications[j]).channel_id,
        )
}

/// The mapping finds no unmapped identifier exactly when the table has an
/// entry for every reference of the dashboard; so it succeeds on exactly
/// those dashboards, and fails on one that holds a reference without an entry.
pub proof fn law_mapped_exactly_when_every_reference_is(
    panels: Seq<PanelModel>,
    table: Map<Seq<char>, Seq<char>>,
)
    ensures
        first_unmapped(channel_ids(panels), table) is None <==> every_reference_mapped(
            panels,
            table,
        ),
    decreases panels.len(),
{
    if panels.len() > 0 {
        let shorter = panels.drop_last();
        let last = panels.last();
        let n = panels.len() - 1;
        law_mapped_exactly_when_every_reference_is(shorter, table);
        lemma_first_unmapped_concat(channel_ids(shorter), panel_ids(last), table);
        lemma_all_mapped(panel_ids(last), table);
        assert(panels[n] == last);
        if first_unmapped(channel_ids(panels), table) is None {
            assert forall|i: int, j: int|
                0 <= i < panels.len() && panels[i].alert is Some && 0 <= j
                    < panels[i].alert->0.notifications.len() implies table.contains_key(
                (#[trigger] panels[i].alert->0.notifications[j]).channel_id,
            ) by {
                if i < n {
                    assert(shorter[i] == panels[i]);
                    assert(table.contains_key(shorter[i].alert->0.notifications[j].channel_id));
                } else {
                    assert(panel_ids(last)[j] == last.alert->0.notifications[j].channel_id);
                }
            }
        }
        if every_reference_mapped(panels, table) {
            assert forall|i: int, j: int|
                0 <= i < shorter.len() && shorter[i].alert is Some && 0 <= j
                    < shorter[i].alert->0.notifications.len() implies table.contains_key(
                (#[trigger] shorter[i].alert->0.notifications[j]).channel_id,
            ) by {
                assert(shorter[i] == panels[i]);
                assert(table.contains_key(panels[i].alert->0.notifications[j].channel_id));
            }
            assert forall|k: int| 0 <= k < panel_ids(last).len() implies table.contains_key(
                #[trigger] panel_ids(last)[k],
            ) by {
                assert(panel_ids(last)[k] == panels[n].alert->0.notifications[k].channel_id);
            }
        }
    }
}

/// A sequence of panels of which none has an alert rule with a reference
/// refers to no channel.
pub proof fn lemma_no_references(panels: Seq<PanelModel>)
    requires
        forall|k: int|
            0 <= k < panels.len() ==> (#[trigger] panels[k]).alert is None
                || panels[k].alert->0.notifications.len() == 0,
    ensures
        channel_ids(panels) == Seq::<Seq<char>>::empty(),
    decreases panels.len(),
{
    if panels.len() > 0 {
        let shorter = panels.drop_last();
        assert forall|k: int| 0 <= k < shorter.len() implies (#[trigger] shorter[k]).alert is None
            || shorter[k].alert->0.notifications.len() == 0 by {
            assert(shorter[k] == panels[k]);
        }
        lemma_no_references(shorter);
        assert(panels.last() == panels[panels.len() - 1]);
        assert(panel_ids(panels.last()) =~= Seq::<Seq<char>>::empty());
        assert(channel_ids(panels) =~= Seq::<Seq<char>>::empty());
    }
}

/// A dashboard in which no panel alerts, or whose alert rules name no
/// notification, passes the mapping unchanged, whatever the table holds.
pub proof fn law_no_alert_passthrough(doc: DashboardModel, table: Map<Seq<char>, Seq<char>>)
    requires
        forall|k: int|
            0 <= k < doc.panels.len() ==> (#[trigger] doc.panels[k]).alert is None
                || doc.panels[k].alert->0.notifications.len() == 0,
    ensures
        first_unmapped(channel_ids(doc.panels), table) is None,
        remap(doc, table) == doc,
{
    lemma_no_references(doc.panels);
    assert forall|k: int| 0 <= k < doc.panels.len() implies remap_panel(
        #[trigger] doc.panels[k],
        table,
    ) == doc.panels[k] by {
        let panel = doc.panels[k];
        if panel.alert is Some {
            let rule = panel.alert->0;
            assert(remap_rule(rule, table).notifications =~= rule.notifications);
        }
    }
    assert(remap(doc, table).panels =~= doc.panels);
}

/// After the mapping a dashboard refers, place by place, to the channels
/// that the table gives for the ones it referred to before.
pub proof fn law_remap_replaces_every_reference(
    panels: Seq<PanelModel>,
    table: Map<Seq<char>, Seq<char>>,
)
    ensures
        channel_ids(panels.map_values(|p: PanelModel| remap_panel(p, table))) == channel_ids(
            panels,
        ).map_values(|id: Seq<char>| table[id]),
    decreases panels.len(),
{
    let mapped = panels.map_values(|p: PanelModel| remap_panel(p, table));
    let lookup = |id: Seq<char>| table[id];
    if panels.len() == 0 {
        assert(channel_ids(mapped) =~= channel_ids(panels).map_values(lookup));
    } else {
        let shorter = panels.drop_last();
        law_remap_replaces_every_reference(shorter, table);
        assert(mapped.drop_last() =~= shorter.map_values(|p: PanelModel| remap_panel(p, table)));
        assert(mapped.last() == remap_panel(panels.last(), table));
        assert(panel_ids(remap_panel(panels.last(), table)) =~= panel_ids(
            panels.last(),
        ).map_values(lookup));
        assert(channel_ids(mapped) =~= channel_ids(panels).map_values(lookup));
    }
}

/// The mapping leaves every unknown field where it was and as it was.
pub proof fn law_remap_keeps_unknown_fields(doc: DashboardModel, table: Map<Seq<char>, Seq<char>>)
    ensures
        unknown_fields(remap(doc, table)) == unknown_fields(doc),
        remap(doc, table).id == doc.id,
        remap(doc, table).uid == doc.uid,
        remap(doc, table).version == doc.version,
        remap(doc, table).panels.len() == doc.panels.len(),
{
    assert forall|k: int| 0 <= k < doc.panels.len() implies panel_bags(
        remap_panel(#[trigger] doc.panels[k], table),
    ) == panel_bags(doc.panels[k]) by {
        let panel = doc.panels[k];
        if panel.alert is Some {
            let rule = panel.alert->0;
            assert(rule_bags(remap_rule(rule, table)).1 =~= rule_bags(rule).1);
        }
    }
    assert(unknown_fields(remap(doc, table)).1 =~= unknown_fields(doc).1);
}

/// The first channel identifier of `rule`, in the order of its references,
/// that the table does not map.
fn unmapped_in_rule(rule: &AlertRule, table: &ChannelMap) -> (result: Option<String>)
    ensures
        match result {
            Some(id) => first_unmapped(rule_ids(rule@), table@) == Some(id@),
            None => first_unmapped(rule_ids(rule@), table@) is None,
        },
{
    let ghost ids = rule_ids(rule@);
    let mut j: usize = 0;
    proof {
        assert(ids.skip(0) =~= ids);
    }
    while j < rule.notifications.len()
        invariant
            j <= rule.notifications.len(),
            ids == rule_ids(rule@),
            first_unmapped(ids, table@) == first_unmapped(ids.skip(j as int), table@),
        decreases rule.notifications.len() - j,
    {
        proof {
            assert(ids.skip(j as int).first() == rule.notifications[j as int].channel_id@);
            assert(ids.skip(j as int).drop_first() =~= ids.skip(j + 1));
        }
        if !table.contains(rule.notifications[j].channel_id.as_str()) {
            return Some(rule.notifications[j].channel_id.clone());
        }
        j += 1;
    }
    None
}

/// The first channel identifier of `doc`, in panel order, that the table does
/// not map; `None` where the table maps every one of them.
pub fn find_unmapped(doc: &Dashboard, table: &ChannelMap) -> (result: Option<String>)
    ensures
        match result {
            Some(id) => first_unmapped(channel_ids(doc@.panels), table@) == Some(id@),
            None => first_unmapped(channel_ids(doc@.panels), table@) is None,
        },
{
    let ghost panels = doc@.panels;
    let mut i: usize = 0;
    proof {
        assert(channel_ids(panels.take(0)) =~= Seq::<Seq<char>>::empty());
    }
    while i < doc.panels.len()
        invariant
            i <= doc.panels.len(),
            panels == doc@.panels,
            first_unmapped(channel_ids(panels.take(i as int)), table@) is None,
        decreases doc.panels.len() - i,
    {
        proof {
            lemma_channel_ids_step(panels, i as int);
            lemma_first_unmapped_concat(
                channel_ids(panels.take(i as int)),
                panel_ids(panels[i as int]),
                table@,
            );
            assert(panels[i as int] == doc.panels[i as int]@);
        }
        match &doc.panels[i].alert {
            Some(rule) => {
                match unmapped_in_rule(rule, table) {
                    Some(id) => {
                        proof {
                            lemma_channel_ids_split(panels, i + 1);
                            lemma_first_unmapped_concat(
                                channel_ids(panels.take(i + 1)),
                                channel_ids(panels.skip(i + 1)),
                                table@,
                            );
                        }
                        return Some(id);
                    },
                    None => {},
                }
            },
            None => {},
        }
        i += 1;
    }
    proof {
        assert(panels.take(i as int) =~= panels);
    }
    None
}

fn remap_rule_in_place(rule: &mut AlertRule, table: &ChannelMap)
    requires
        first_unmapped(rule_ids(old(rule)@), table@) is None,
    ensures
        final(rule)@ == remap_rule(old(rule)@, table@),
{
    proof {
        lemma_all_mapped(rule_ids(rule@), table@);
        assert forall|k: int| 0 <= k < rule.notifications.len() implies table@.contains_key(
            #[trigger] rule.notifications[k].channel_id@,
        ) by {
            assert(rule_ids(rule@)[k] == rule.notifications[k].channel_id@);
        }
    }
    let mut j: usize = 0;
    while j < rule.notifications.len()
        invariant
            j <= rule.notifications.len(),
            rule.rest == old(rule).rest,
            rule.notifications.len() == old(rule).notifications.len(),
            forall|k: int|
                0 <= k < old(rule).notifications.len() ==> table@.contains_key(
                    #[trigger] old(rule).notifications[k].channel_id@,
                ),
            forall|k: int|
                0 <= k < j ==> (#[trigger] rule.notifications[k])@ == remap_ref(
                    old(rule).notifications[k]@,
                    table@,
                ),
            forall|k: int|
                j <= k < rule.notifications.len() ==> #[trigger] rule.notifications[k] == old(
                    rule,
                ).notifications[k],
        decreases rule.notifications.len() - j,
    {
        if let Some(destination) = table.get(rule.notifications[j].channel_id.as_str()) {
            let target = destination.clone();
            rule.notifications[j].channel_id = target;
        }
        j += 1;
    }
    assert(rule@.notifications =~= remap_rule(old(rule)@, table@).notifications);
}

/// Replaces every channel reference of `doc` by what the table gives for it.
fn remap_in_place(doc: &mut Dashboard, table: &ChannelMap)
    requires
        first_unmapped(channel_ids(old(doc)@.panels), table@) is None,
    ensures
        final(doc)@ == remap(old(doc)@, table@),
{
    let mut i: usize = 0;
    while i < doc.panels.len()
        invariant
            i <= doc.panels.len(),
            doc.id == old(doc).id,
            doc.uid == old(doc).uid,
            doc.version == old(doc).version,
            doc.rest == old(doc).rest,
            doc.panels.len() == old(doc).panels.len(),
            first_unmapped(channel_ids(old(doc)@.panels), table@) is None,
            forall|k: int|
                0 <= k < i ==> (#[trigger] doc.panels[k])@ == remap_panel(
                    old(doc).panels[k]@,
                    table@,
                ),
            forall|k: int|
                i <= k < doc.panels.len() ==> #[trigger] doc.panels[k] == old(doc).panels[k],
        decreases doc.panels.len() - i,
    {
        proof {
            assert(old(doc)@.panels[i as int] == old(doc).panels[i as int]@);
            lemma_panel_mapped(old(doc)@.panels, i as int, table@);
        }
        match &mut doc.panels[i].alert {
            Some(rule) => {
                remap_rule_in_place(rule, table);
            },
            None => {},
        }
        i += 1;
    }
    assert(doc@.panels =~= remap(old(doc)@, table@).panels);
}

/// Rewrites every channel reference of `doc` to the destination channel that
/// the table gives for it, or fails on the first reference, in panel order,
/// that the table does not map, and then leaves `doc` as it was.
pub fn map_notifications(doc: &mut Dashboard, table: &ChannelMap) -> (result: Result<
    (),
    MappingError,
>)
    ensures
        match result {
            Ok(()) => first_unmapped(channel_ids(old(doc)@.panels), table@) is None && final(doc)@
                == remap(old(doc)@, table@),
            Err(e) => first_unmapped(channel_ids(old(doc)@.panels), table@) == Some(
                e.channel_id@,
            ) && *final(doc) == *old(doc),
        },
{
    match find_unmapped(doc, table) {
        Some(channel_id) => Err(MappingError { channel_id }),
        None => {
            remap_in_place(doc, table);
            Ok(())
        },
    }
}

} // verus!
