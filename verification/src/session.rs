//! The per-run session context: the live snapshot, the most recent
//! baseline if one was loaded, the lock posture and the advisory list,
//! read by presentation through narrow accessors.

use vstd::prelude::*;

use crate::advice::{advice_spec, generate_spoofing_advice, AdviceView, SpoofingAdvice};
use crate::baseline::{BaselineView, PreviousSerials};
use crate::compare::{compare_list_spec, compare_scalar_spec, ListCategory, ScalarCategory, SerialStatus};
use crate::parse::parse_spec;
use crate::posture::{LockedMotherboardInfo, PlatformSignals, posture_spec, PostureView};
use crate::serialize::serialized_spec;
use crate::snapshot::{SnapshotModel, SnapshotView};

verus! {

/// One inspection run's state; constructed once, read by presentation.
pub struct Session {
    snapshot: SnapshotModel,
    baseline: Option<PreviousSerials>,
    posture: LockedMotherboardInfo,
    advice: Vec<SpoofingAdvice>,
}

/// Mathematical shape of a session.
#[verifier::ext_equal]
pub struct SessionView {
    pub snapshot: SnapshotView,
    pub baseline: Option<BaselineView>,
    pub posture: PostureView,
    pub advice: Seq<AdviceView>,
}

impl View for Session {
    type V = SessionView;

    closed spec fn view(&self) -> SessionView {
        SessionView {
            snapshot: self.snapshot@,
            baseline: match self.baseline {
                Option::None => Option::None,
                Option::Some(b) => Option::Some(b@),
            },
            posture: self.posture@,
            advice: self.advice.deep_view(),
        }
    }
}

/// The live scalar a comparison category reads from the snapshot.
pub open spec fn scalar_of(m: SnapshotView, c: ScalarCategory) -> Seq<char> {
    match c {
        ScalarCategory::SystemSerial => m.system.serial_number,
        ScalarCategory::SystemUuid => m.system.uuid,
        ScalarCategory::SystemSku => m.system.sku,
        ScalarCategory::BaseboardSerial => m.baseboard.serial_number,
        ScalarCategory::ProcessorSerial => m.processor.serial_number,
        ScalarCategory::ChassisSerial => m.chassis.serial_number,
    }
}

impl Session {
    /// Opens a session: evaluates the posture and the advisory catalogue
    /// for the given signals; no baseline is loaded yet.
    pub fn new(snapshot: SnapshotModel, signals: &PlatformSignals) -> (s: Session)
        ensures
            s@.snapshot == snapshot@,
            s@.baseline is None,
            s@.posture == posture_spec(signals@),
            s@.advice == advice_spec(posture_spec(signals@)),
    {
        let posture = LockedMotherboardInfo::detect(signals);
        let advice = generate_spoofing_advice(&posture);
        Session { snapshot, baseline: Option::None, posture, advice }
    }

    /// Parses a previously saved text and makes it the session's baseline.
    pub fn load_baseline(&mut self, content: &str)
        ensures
            final(self)@.baseline == Option::Some(parse_spec(content@)),
            final(self)@.snapshot == old(self)@.snapshot,
            final(self)@.posture == old(self)@.posture,
            final(self)@.advice == old(self)@.advice,
    {
        self.baseline = Option::Some(PreviousSerials::parse(content));
    }

    /// The live snapshot.
    pub fn snapshot(&self) -> (r: &SnapshotModel)
        ensures
            r@ == self@.snapshot,
    {
        &self.snapshot
    }

    /// The baseline, when one was loaded.
    pub fn baseline(&self) -> (r: &Option<PreviousSerials>)
        ensures
            match r {
                Option::None => self@.baseline is None,
                Option::Some(b) => self@.baseline == Option::Some(b@),
            },
    {
        &self.baseline
    }

    /// The lock posture.
    pub fn posture(&self) -> (r: &LockedMotherboardInfo)
        ensures
            r@ == self@.posture,
    {
        &self.posture
    }

    /// The advisory catalogue.
    pub fn advice(&self) -> (r: &Vec<SpoofingAdvice>)
        ensures
            r.deep_view() == self@.advice,
    {
        &self.advice
    }

    /// Renders the live snapshot to the durable text format.
    pub fn serialize(&self) -> (out: String)
        ensures
            out@ == serialized_spec(self@.snapshot),
    {
        self.snapshot.serialize()
    }

    /// Compares the snapshot's scalar for `category` against the baseline;
    /// nothing without a loaded baseline.
    pub fn compare_scalar(&self, category: ScalarCategory) -> (st: Option<SerialStatus>)
        ensures
            match st {
                Option::None => self@.baseline is None,
                Option::Some(s) => self@.baseline is Some && s@ == compare_scalar_spec(
                    self@.baseline->0,
                    category,
                    scalar_of(self@.snapshot, category),
                ),
            },
    {
        match &self.baseline {
            Option::None => Option::None,
            Option::Some(b) => {
                let current: &String = match category {
                    ScalarCategory::SystemSerial => &self.snapshot.system.serial_number,
                    ScalarCategory::SystemUuid => &self.snapshot.system.uuid,
                    ScalarCategory::SystemSku => &self.snapshot.system.sku,
                    ScalarCategory::BaseboardSerial => &self.snapshot.baseboard.serial_number,
                    ScalarCategory::ProcessorSerial => &self.snapshot.processor.serial_number,
                    ScalarCategory::ChassisSerial => &self.snapshot.chassis.serial_number,
                };
                Option::Some(b.compare(category, current.as_str()))
            },
        }
    }

    /// Compares one live list value against the baseline list for
    /// `category`; nothing without a loaded baseline.
    pub fn compare_list(&self, category: ListCategory, current: &str) -> (st: Option<SerialStatus>)
        ensures
            match st {
                Option::None => self@.baseline is None,
                Option::Some(s) => self@.baseline is Some && s@ == compare_list_spec(
                    self@.baseline->0,
                    category,
                    current@,
                ),
            },
    {
        match &self.baseline {
            Option::None => Option::None,
            Option::Some(b) => Option::Some(b.compare_list(category, current)),
        }
    }
}

} // verus!
