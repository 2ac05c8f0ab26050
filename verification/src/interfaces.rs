//! Shared interface objects that appear inside several entities.

use vstd::prelude::*;

use crate::snowflake::Snowflake;

verus! {

/// The welcome screen a guild shows to new members.
#[derive(Debug, PartialEq, Eq, Hash)]
pub struct WelcomeScreenObject {
    pub enabled: bool,
    pub description: Option<String>,
    pub welcome_channels: Vec<WelcomeScreenChannel>,
}

/// One channel advertised on a guild's welcome screen.
#[derive(Debug, PartialEq, Eq, Hash)]
pub struct WelcomeScreenChannel {
    pub channel_id: Snowflake,
    pub description: String,
    pub emoji_id: Option<Snowflake>,
    pub emoji_name: Option<String>,
}

impl Clone for WelcomeScreenChannel {
    /// An exact copy.
    fn clone(&self) -> (r: Self)
        ensures
            r == *self,
    {
        WelcomeScreenChannel {
            channel_id: self.channel_id,
            description: self.description.clone(),
            emoji_id: self.emoji_id,
            emoji_name: self.emoji_name.clone(),
        }
    }
}

/// Attribute-for-attribute equality of two welcome screens, looking through
/// the channel list (the lists may be distinct allocations).
pub open spec fn welcome_screen_like(a: WelcomeScreenObject, b: WelcomeScreenObject) -> bool {
    a.enabled == b.enabled && a.description == b.description && a.welcome_channels@
        == b.welcome_channels@
}

impl Clone for WelcomeScreenObject {
    /// A copy equal attribute for attribute.
    fn clone(&self) -> (r: Self)
        ensures
            welcome_screen_like(r, *self),
    {
        let channels = self.welcome_channels.clone();
        proof {
            assert forall|i: int|
                0 <= i < channels@.len() implies channels@[i] == self.welcome_channels@[i] by {}
            assert(channels@ =~= self.welcome_channels@);
        }
        WelcomeScreenObject {
            enabled: self.enabled,
            description: self.description.clone(),
            welcome_channels: channels,
        }
    }
}

} // verus!
