use vstd::prelude::*;

use crate::catalog::caption_catalog;
use crate::catalog::drone_models;
use crate::catalog::lemma_caption_catalog_wf;
use crate::catalog::lemma_model_catalog_wf;
use crate::catalog::location_captions;
use crate::catalog::model_catalog;
use crate::codec::lemma_render_fleet_snoc;
use crate::codec::lemma_roundtrip_exact;
use crate::codec::plain_text;
use crate::codec::wf_drone;
use crate::codec::parse_fleet_text;
use crate::codec::render_drone;
use crate::codec::spec_parse_fleet;
use crate::codec::spec_render_fleet;
use crate::codec::FleetParseError;
use crate::model::Drone;
use crate::model::DroneData;
use crate::model::Location;
use rand::Rng;

verus! {

/// A failure of a fleet query.
#[derive(Debug, PartialEq, Eq, Structural)]
pub enum SimulationError {
    EmptyFleet,
}

/// Relies on rand::rng and rand::Rng::random_range: a draw from the half-open
/// range `[0, bound)`, which panics only on an empty range. Nothing more is
/// assumed of the value: any index under the bound may come back.
#[verifier::external_body]
fn random_below(bound: usize) -> (r: usize)
    requires
        bound >= 1,
    ensures
        r < bound,
{
    rand::rng().random_range(0..bound)
}

/// What `load` promises of the drone it appends at offset `k` of the batch:
/// a sequential id, full energy, alive, and model, coordinates and caption
/// drawn from the fixed catalogs and ranges.
pub open spec fn generated_drone(d: DroneData, k: int) -> bool {
    &&& d.id == k
    &&& d.energy_level == 100
    &&& d.is_alive
    &&& exists|mi: int| 0 <= mi < model_catalog().len() && d.model == model_catalog()[mi]
    &&& d.location.x < 100
    &&& d.location.y < 100
    &&& d.location.z < 100
    &&& exists|ci: int|
        0 <= ci < caption_catalog().len() && d.location.caption == caption_catalog()[ci]
}

/// Owns the fleet and is its sole mutator: loads randomly generated drones,
/// reports the count, and hands out a randomly chosen member.
pub struct SimulationController {
    drones: Vec<Drone>,
}

impl SimulationController {
    /// The fleet as the ghost sequence of its drones' data, in insertion
    /// order.
    pub closed spec fn fleet(&self) -> Seq<DroneData> {
        self.drones@.map_values(|d: Drone| d@)
    }

    /// A fresh controller with an empty fleet.
    pub fn new() -> (r: Self)
        ensures
            r.fleet() =~= Seq::<DroneData>::empty(),
    {
        SimulationController { drones: Vec::new() }
    }

    /// Appends `drone_count` freshly generated drones to the fleet; a
    /// non-positive count appends nothing. Always reports success.
    pub fn load(&mut self, drone_count: i32) -> (r: bool)
        ensures
            r == true,
            drone_count <= 0 ==> final(self).fleet() =~= old(self).fleet(),
            drone_count >= 0 ==> {
                &&& final(self).fleet().len() == old(self).fleet().len() + drone_count
                &&& final(self).fleet().take(old(self).fleet().len() as int) =~= old(self).fleet()
                &&& forall|k: int|
                    0 <= k < drone_count ==> generated_drone(
                        #[trigger] final(self).fleet()[old(self).fleet().len() + k],
                        k,
                    )
            },
    {
        let models = drone_models();
        let captions = location_captions();
        let ghost base = self.fleet().len() as int;
        let mut i: i32 = 0;
        while i < drone_count
            invariant
                base == old(self).fleet().len(),
                0 <= i,
                drone_count > 0 ==> i <= drone_count,
                drone_count <= 0 ==> i == 0,
                models@.len() == model_catalog().len(),
                forall|m: int| 0 <= m < models@.len() ==> models@[m]@ == model_catalog()[m],
                captions@.len() == caption_catalog().len(),
                forall|c: int| 0 <= c < captions@.len() ==> captions@[c]@ == caption_catalog()[c],
                self.fleet().len() == base + i,
                self.fleet().take(base) =~= old(self).fleet(),
                forall|k: int| 0 <= k < i ==> generated_drone(#[trigger] self.fleet()[base + k], k),
            decreases drone_count - i,
        {
            let model_index = random_below(models.len());
            let caption_index = random_below(captions.len());
            let drone = Drone {
                id: i as u32,
                energy_level: 100,
                model: models[model_index].clone(),
                is_alive: true,
                location: Location {
                    x: random_below(100) as u32,
                    y: random_below(100) as u32,
                    z: random_below(100) as u32,
                    caption: captions[caption_index].clone(),
                },
            };
            let ghost prev_fleet = self.fleet();
            let ghost drone_data = drone@;
            self.drones.push(drone);
            proof {
                assert(self.fleet() =~= prev_fleet.push(drone_data));
                assert forall|j: int| 0 <= j < base implies self.fleet().take(base)[j]
                    == prev_fleet.take(base)[j] by {
                    assert(self.fleet()[j] == prev_fleet[j]);
                }
                assert(self.fleet().take(base) =~= prev_fleet.take(base));
                assert(generated_drone(drone_data, i as int));
                assert forall|k: int| 0 <= k < i + 1 implies generated_drone(
                    #[trigger] self.fleet()[base + k],
                    k,
                ) by {
                    if k < i {
                        assert(self.fleet()[base + k] == prev_fleet[base + k]);
                        assert(generated_drone(prev_fleet[base + k], k));
                    } else {
                        assert(self.fleet()[base + k] == drone_data);
                    }
                }
            }
            i = i + 1;
        }
        true
    }

    /// The current fleet size.
    pub fn get_count(&self) -> (r: usize)
        ensures
            r == self.fleet().len(),
    {
        self.drones.len()
    }

    /// The whole fleet as its persisted text, one record per line, exactly
    /// as `spec_render_fleet` describes. The caller takes the text to its
    /// destination; writing it out is no business of the controller.
    pub fn save(&self) -> (content: String)
        ensures
            content@ == spec_render_fleet(self.fleet()),
    {
        let mut content = String::new();
        let mut idx: usize = 0;
        while idx < self.drones.len()
            invariant
                0 <= idx <= self.drones.len(),
                content@ == spec_render_fleet(self.fleet().take(idx as int)),
            decreases self.drones.len() - idx,
        {
            let line = render_drone(&self.drones[idx]);
            content.append(line.as_str());
            content.append("\n");
            proof {
                lemma_render_fleet_snoc(self.fleet().take(idx as int), self.fleet()[idx as int]);
                assert(self.fleet().take(idx + 1) =~= self.fleet().take(idx as int).push(
                    self.fleet()[idx as int],
                ));
                assert(self.drones@[idx as int]@ == self.fleet()[idx as int]);
            }
            idx = idx + 1;
        }
        proof {
            assert(self.fleet().take(self.drones@.len() as int) =~= self.fleet());
        }
        content
    }

    /// Replaces the fleet with the one a saved text describes; a malformed
    /// text is reported and leaves the fleet as it was. The drones come back
    /// in saved order, numbered by position as `load` numbers a fresh batch;
    /// the saved text itself carries no ids, so a fleet built in several
    /// `load` batches, whose ids restart with each batch, comes back with
    /// its ids renumbered by overall position.
    pub fn load_from(&mut self, content: &str) -> (r: Result<(), FleetParseError>)
        ensures
            r is Ok <==> spec_parse_fleet(content@) is Some,
            r is Ok ==> Some(final(self).fleet()) == spec_parse_fleet(content@),
            r is Err ==> final(self).fleet() == old(self).fleet(),
    {
        match parse_fleet_text(content) {
            Ok(v) => {
                self.drones = v;
                Ok(())
            },
            Err(e) => Err(e),
        }
    }

    /// A copy of a randomly chosen member of the fleet; an empty fleet is
    /// reported as an error rather than a crash.
    pub fn get_random(&self) -> (r: Result<Drone, SimulationError>)
        ensures
            self.fleet().len() == 0 <==> r == Err::<Drone, SimulationError>(
                SimulationError::EmptyFleet,
            ),
            r matches Ok(d) ==> exists|k: int| 0 <= k < self.fleet().len() && d@ == self.fleet()[k],
    {
        if self.drones.len() == 0 {
            return Err(SimulationError::EmptyFleet);
        }
        let index = random_below(self.drones.len());
        let picked = self.drones[index].clone();
        proof {
            assert(picked@ == self.fleet()[index as int]);
        }
        Ok(picked)
    }
}

/// The round trip for a freshly loaded fleet: drones generated as `load`
/// generates them are well-formed for the record format and numbered by
/// position, so the saved text reads back to exactly the same fleet.
pub proof fn lemma_generated_fleet_roundtrip(ds: Seq<DroneData>)
    requires
        ds.len() <= u32::MAX,
        forall|k: int| 0 <= k < ds.len() ==> generated_drone(#[trigger] ds[k], k),
    ensures
        spec_parse_fleet(spec_render_fleet(ds)) == Some(ds),
{
    lemma_model_catalog_wf();
    lemma_caption_catalog_wf();
    assert forall|k: int| 0 <= k < ds.len() implies wf_drone(#[trigger] ds[k]) by {
        let mi = choose|mi: int|
            0 <= mi < model_catalog().len() && ds[k].model == model_catalog()[mi];
        let ci = choose|ci: int|
            0 <= ci < caption_catalog().len() && ds[k].location.caption == caption_catalog()[ci];
        assert(plain_text(model_catalog()[mi]));
        assert(plain_text(caption_catalog()[ci]));
        assert(forall|i: int| 0 <= i < ds[k].model.len() ==> #[trigger] ds[k].model[i] != '(');
    }
    lemma_roundtrip_exact(ds);
}

impl Default for SimulationController {
    /// The same empty controller that `new` builds.
    fn default() -> (r: Self)
        ensures
            r.fleet() =~= Seq::<DroneData>::empty(),
    {
        Self::new()
    }
}

} // verus!
