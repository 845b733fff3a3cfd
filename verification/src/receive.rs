//! Decisions for the receive utility: which topic to subscribe to, chosen
//! from a custom topic or from independently overridable topic fragments.

use vstd::prelude::*;

use crate::topics::build_topic;

verus! {

/// Selection for the receive utility: either one fully custom topic, or
/// role/id/plug-name fragments, each standing in for the wildcard `+` when
/// not given. The two modes are mutually exclusive; fragment mode applies as
/// soon as at least one fragment is supplied.
#[derive(Debug)]
pub struct ReceiveOptions {
    pub subscribe_topic: Option<String>,
    pub subscribe_role: Option<String>,
    pub subscribe_id: Option<String>,
    pub subscribe_plug: Option<String>,
}

impl ReceiveOptions {
    /// Whether at least one topic fragment was supplied, which makes fragment
    /// mode take precedence over the custom-topic mode.
    pub open spec fn fragment_mode(&self) -> bool {
        self.subscribe_role is Some || self.subscribe_id is Some || self.subscribe_plug is Some
    }

    /// The topic the utility subscribes to: in fragment mode the three
    /// fragments joined with `/`, each missing one standing in as `+`; in
    /// custom mode the given topic, or the match-everything wildcard `#` when
    /// none was given either.
    pub fn subscription_topic(&self) -> (r: String)
        ensures
            self.fragment_mode() ==> r@ == (match self.subscribe_role {
                Some(role) => role@,
                None => seq!['+'],
            }) + seq!['/'] + (match self.subscribe_id {
                Some(id) => id@,
                None => seq!['+'],
            }) + seq!['/'] + (match self.subscribe_plug {
                Some(plug) => plug@,
                None => seq!['+'],
            }),
            !self.fragment_mode() ==> r@ == match self.subscribe_topic {
                Some(topic) => topic@,
                None => seq!['#'],
            },
    {
        proof {
            reveal_strlit("+");
            reveal_strlit("#");
        }
        if self.subscribe_role.is_some() || self.subscribe_id.is_some()
            || self.subscribe_plug.is_some() {
            let role: &str = match &self.subscribe_role {
                Some(role) => role.as_str(),
                None => "+",
            };
            let id: &str = match &self.subscribe_id {
                Some(id) => id.as_str(),
                None => "+",
            };
            let plug: &str = match &self.subscribe_plug {
                Some(plug) => plug.as_str(),
                None => "+",
            };
            build_topic(role, id, plug)
        } else {
            match &self.subscribe_topic {
                Some(topic) => topic.clone(),
                None => "#".to_owned(),
            }
        }
    }
}

} // verus!
