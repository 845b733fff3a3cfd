//! Finalized plug definitions: the immutable result of building a plug.

use vstd::prelude::*;

verus! {

/// What every finalized plug carries: its name, its resolved wire topic, and
/// its quality-of-service level.
#[derive(Debug)]
pub struct PlugDefinitionCommon {
    pub name: String,
    pub topic: String,
    pub qos: i32,
}

/// A finalized receive-direction plug.
#[derive(Debug)]
pub struct InputPlugDefinition {
    common: PlugDefinitionCommon,
}

/// A finalized send-direction plug; `retain` asks the broker to persist the
/// last message on the topic.
#[derive(Debug)]
pub struct OutputPlugDefinition {
    common: PlugDefinitionCommon,
    retain: bool,
}

/// A finalized plug: either an input (subscribe) or an output (publish)
/// definition. Immutable once built; carries no reference to its builder.
#[derive(Debug)]
pub enum PlugDefinition {
    InputPlugDefinition(InputPlugDefinition),
    OutputPlugDefinition(OutputPlugDefinition),
}

impl InputPlugDefinition {
    pub closed spec fn common_spec(&self) -> PlugDefinitionCommon {
        self.common
    }

    pub(crate) fn new(common: PlugDefinitionCommon) -> (r: InputPlugDefinition)
        ensures
            r.common_spec() == common,
    {
        InputPlugDefinition { common }
    }
}

impl OutputPlugDefinition {
    pub closed spec fn common_spec(&self) -> PlugDefinitionCommon {
        self.common
    }

    pub closed spec fn retain_spec(&self) -> bool {
        self.retain
    }

    pub(crate) fn new(common: PlugDefinitionCommon, retain: bool) -> (r: OutputPlugDefinition)
        ensures
            r.common_spec() == common,
            r.retain_spec() == retain,
    {
        OutputPlugDefinition { common, retain }
    }

    pub fn retain(&self) -> (r: bool)
        ensures
            r == self.retain_spec(),
    {
        self.retain
    }
}

impl PlugDefinition {
    /// The shared part of either variant.
    pub open spec fn spec_common(&self) -> PlugDefinitionCommon {
        match self {
            PlugDefinition::InputPlugDefinition(plug) => plug.common_spec(),
            PlugDefinition::OutputPlugDefinition(plug) => plug.common_spec(),
        }
    }

    /// The retain flag: outputs carry theirs, inputs never retain.
    pub open spec fn spec_retain(&self) -> bool {
        match self {
            PlugDefinition::InputPlugDefinition(_) => false,
            PlugDefinition::OutputPlugDefinition(plug) => plug.retain_spec(),
        }
    }

    pub fn common(&self) -> (r: &PlugDefinitionCommon)
        ensures
            *r == self.spec_common(),
    {
        match self {
            PlugDefinition::InputPlugDefinition(plug) => &plug.common,
            PlugDefinition::OutputPlugDefinition(plug) => &plug.common,
        }
    }

    /// The shared part, writable in place; the variant and (for an output)
    /// the retain flag stay as they were.
    pub fn common_mut(&mut self) -> (r: &mut PlugDefinitionCommon)
        ensures
            *r == old(self).spec_common(),
            final(self).spec_common() == *final(r),
            (*final(self)) is InputPlugDefinition <==> (*old(self)) is InputPlugDefinition,
            final(self).spec_retain() == old(self).spec_retain(),
    {
        match self {
            PlugDefinition::InputPlugDefinition(plug) => &mut plug.common,
            PlugDefinition::OutputPlugDefinition(plug) => &mut plug.common,
        }
    }

    pub fn name(&self) -> (r: &str)
        ensures
            r@ == self.spec_common().name@,
    {
        self.common().name.as_str()
    }

    pub fn topic(&self) -> (r: &str)
        ensures
            r@ == self.spec_common().topic@,
    {
        self.common().topic.as_str()
    }

    pub fn qos(&self) -> (r: i32)
        ensures
            r == self.spec_common().qos,
    {
        self.common().qos
    }
}

} // verus!
