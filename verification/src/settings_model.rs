//! The settings that the program loads at start.

use vstd::prelude::*;

verus! {

/// Where the tunnel server listens, and the phrase that greets it.
#[derive(Debug)]
pub struct SettingsModel {
    pub tunnel_host_port: String,
    pub tunnel_hand_shake_phrase: String,
}

impl Clone for SettingsModel {
    fn clone(&self) -> (settings: Self)
        ensures
            settings == *self,
    {
        SettingsModel {
            tunnel_host_port: self.tunnel_host_port.clone(),
            tunnel_hand_shake_phrase: self.tunnel_hand_shake_phrase.clone(),
        }
    }
}

} // verus!
