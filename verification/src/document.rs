//! The dashboard document: the fields the copy rewrites are typed, every
//! other field travels in an opaque bag that no function here looks into.

use std::collections::HashMap;
use vstd::prelude::*;

verus! {

/// A JSON value of `serde_json`, carried through unread.
///
/// Trusted declaration: the verifier learns that the type exists and nothing
/// about what a value of it holds.
#[verifier::external_type_specification]
#[verifier::external_body]
pub struct ExValue(serde_json::Value);

/// The fields of a JSON object that the typed model does not name.
pub type Fields = HashMap<String, serde_json::Value>;

/// A reference from an alert rule to a notification channel of one instance.
#[derive(Debug, Clone, PartialEq)]
pub struct NotificationRef {
    pub channel_id: String,
    pub rest: Fields,
}

/// The alert rule of a panel.
#[derive(Debug, Clone, PartialEq)]
pub struct AlertRule {
    pub notifications: Vec<NotificationRef>,
    pub rest: Fields,
}

/// One panel of a dashboard.
#[derive(Debug, Clone, PartialEq)]
pub struct Panel {
    pub alert: Option<AlertRule>,
    pub rest: Fields,
}

/// A dashboard as one instance serves it.
#[derive(Debug, Clone, PartialEq)]
pub struct Dashboard {
    /// Identity that the serving instance assigned; means nothing elsewhere.
    pub id: Option<u32>,
    /// Identifier that is the same on every instance.
    pub uid: String,
    /// Revision counter of the serving instance.
    pub version: u32,
    pub panels: Vec<Panel>,
    pub rest: Fields,
}

/// What a `NotificationRef` is, as a mathematical value.
pub struct NotificationRefModel {
    pub channel_id: Seq<char>,
    pub rest: Fields,
}

/// What an `AlertRule` is, as a mathematical value.
pub struct AlertRuleModel {
    pub notifications: Seq<NotificationRefModel>,
    pub rest: Fields,
}

/// What a `Panel` is, as a mathematical value.
pub struct PanelModel {
    pub alert: Option<AlertRuleModel>,
    pub rest: Fields,
}

/// What a `Dashboard` is, as a mathematical value.
pub struct DashboardModel {
    pub id: Option<u32>,
    pub uid: Seq<char>,
    pub version: u32,
    pub panels: Seq<PanelModel>,
    pub rest: Fields,
}

impl View for NotificationRef {
    type V = NotificationRefModel;

    open spec fn view(&self) -> NotificationRefModel {
        NotificationRefModel { channel_id: self.channel_id@, rest: self.rest }
    }
}

impl View for AlertRule {
    type V = AlertRuleModel;

    open spec fn view(&self) -> AlertRuleModel {
        AlertRuleModel {
            notifications: self.notifications@.map_values(|r: NotificationRef| r@),
            rest: self.rest,
        }
    }
}

impl View for Panel {
    type V = PanelModel;

    open spec fn view(&self) -> PanelModel {
        PanelModel {
            alert: match self.alert {
                Some(rule) => Some(rule@),
                None => None,
            },
            rest: self.rest,
        }
    }
}

impl View for Dashboard {
    type V = DashboardModel;

    open spec fn view(&self) -> DashboardModel {
        DashboardModel {
            id: self.id,
            uid: self.uid@,
            version: self.version,
            panels: self.panels@.map_values(|p: Panel| p@),
            rest: self.rest,
        }
    }
}

/// The bags of unknown fields of an alert rule: its own, and one for each
/// of its references, in their order.
pub open spec fn rule_bags(rule: AlertRuleModel) -> (Fields, Seq<Fields>) {
    (rule.rest, rule.notifications.map_values(|r: NotificationRefModel| r.rest))
}

/// The bags of unknown fields of a panel: its own, and those of its alert
/// rule where it has one.
pub open spec fn panel_bags(panel: PanelModel) -> (Fields, Option<(Fields, Seq<Fields>)>) {
    (
        panel.rest,
        match panel.alert {
            Some(rule) => Some(rule_bags(rule)),
            None => None,
        },
    )
}

/// Every field of a dashboard that the typed model does not name, each bag
/// at the place in the document where it was read.
pub open spec fn unknown_fields(doc: DashboardModel) -> (
    Fields,
    Seq<(Fields, Option<(Fields, Seq<Fields>)>)>,
) {
    (doc.rest, doc.panels.map_values(|p: PanelModel| panel_bags(p)))
}

} // verus!
