//! The last-known identity and flight-state snapshot of the connected
//! vehicle.

use vstd::prelude::*;

verus! {

/// Identity and capability snapshot of the vehicle endpoint, together with
/// its live flight-mode and armed flags. Present only while connected.
#[derive(Debug)]
pub struct VehicleInfo {
    pub system_id: u8,
    pub component_id: u8,
    pub autopilot_type: String,
    pub vehicle_type: String,
    pub firmware_version: String,
    pub capabilities: Vec<String>,
    pub armed: bool,
    pub flight_mode: String,
}

/// The mathematical value of a [`VehicleInfo`].
#[verifier::ext_equal]
pub struct VehicleModel {
    pub system_id: u8,
    pub component_id: u8,
    pub autopilot_type: Seq<char>,
    pub vehicle_type: Seq<char>,
    pub firmware_version: Seq<char>,
    pub capabilities: Seq<Seq<char>>,
    pub armed: bool,
    pub flight_mode: Seq<char>,
}

/// The views of a sequence of strings, element by element.
pub open spec fn string_views(s: Seq<String>) -> Seq<Seq<char>> {
    s.map_values(|x: String| x@)
}

impl View for VehicleInfo {
    type V = VehicleModel;

    open spec fn view(&self) -> VehicleModel {
        VehicleModel {
            system_id: self.system_id,
            component_id: self.component_id,
            autopilot_type: self.autopilot_type@,
            vehicle_type: self.vehicle_type@,
            firmware_version: self.firmware_version@,
            capabilities: string_views(self.capabilities@),
            armed: self.armed,
            flight_mode: self.flight_mode@,
        }
    }
}

/// A copy of a string vector with the same views.
fn clone_strings(v: &Vec<String>) -> (r: Vec<String>)
    ensures
        string_views(r@) =~= string_views(v@),
{
    let mut r: Vec<String> = Vec::new();
    let mut i: usize = 0;
    while i < v.len()
        invariant
            0 <= i <= v.len(),
            string_views(r@) =~= string_views(v@).take(i as int),
        decreases v.len() - i,
    {
        let ghost prev = r@;
        r.push(v[i].clone());
        proof {
            assert(string_views(prev).len() == prev.len());
            assert forall|k: int| 0 <= k < r@.len() implies string_views(r@)[k] == string_views(
                v@,
            ).take(i + 1)[k] by {
                if k < i {
                    assert(r@[k] == prev[k]);
                    assert(string_views(prev)[k] == prev[k]@);
                }
            }
            assert(string_views(r@) =~= string_views(v@).take(i + 1));
        }
        i = i + 1;
    }
    proof {
        assert(string_views(v@).take(v@.len() as int) =~= string_views(v@));
    }
    r
}

impl Clone for VehicleInfo {
    /// An exact copy of the snapshot.
    fn clone(&self) -> (r: Self)
        ensures
            r@ == self@,
    {
        let r = VehicleInfo {
            system_id: self.system_id,
            component_id: self.component_id,
            autopilot_type: self.autopilot_type.clone(),
            vehicle_type: self.vehicle_type.clone(),
            firmware_version: self.firmware_version.clone(),
            capabilities: clone_strings(&self.capabilities),
            armed: self.armed,
            flight_mode: self.flight_mode.clone(),
        };
        proof {
            assert(r@ =~= self@);
        }
        r
    }
}

/// The identity snapshot a fresh session records on connect: an unarmed
/// ArduPilot quadcopter in stabilize mode with the standard capability
/// tags.
pub open spec fn default_vehicle() -> VehicleModel {
    VehicleModel {
        system_id: 1,
        component_id: 1,
        autopilot_type: "ArduPilot"@,
        vehicle_type: "Quadcopter"@,
        firmware_version: "4.5.0"@,
        capabilities: seq!["MISSION"@, "PARAM"@, "FENCE"@, "RALLY"@],
        armed: false,
        flight_mode: "STABILIZE"@,
    }
}

/// Builds the snapshot recorded on connect.
pub fn fresh_vehicle_info() -> (r: VehicleInfo)
    ensures
        r@ == default_vehicle(),
{
    let mut capabilities: Vec<String> = Vec::new();
    capabilities.push("MISSION".to_owned());
    capabilities.push("PARAM".to_owned());
    capabilities.push("FENCE".to_owned());
    capabilities.push("RALLY".to_owned());
    let r = VehicleInfo {
        system_id: 1,
        component_id: 1,
        autopilot_type: "ArduPilot".to_owned(),
        vehicle_type: "Quadcopter".to_owned(),
        firmware_version: "4.5.0".to_owned(),
        capabilities,
        armed: false,
        flight_mode: "STABILIZE".to_owned(),
    };
    proof {
        assert(string_views(r.capabilities@) =~= default_vehicle().capabilities);
        assert(r@ =~= default_vehicle());
    }
    r
}

} // verus!
