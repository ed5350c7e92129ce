use crate::registry::HealthcareRegistry;
use vstd::prelude::*;

verus! {

/// Metadata of encrypted medical data stored off the ledger under a content identifier.
#[derive(Clone, Debug)]
pub struct IpfsPinRecord {
    pub patient: [u8; 32],
    pub ipfs_cid: String,
    pub data_hash: [u8; 32],
    pub pinned_at: i64,
    pub access_count: u32,
}

/// Notification that a patient's data was pinned.
#[derive(Clone, Debug)]
pub struct DataPinned {
    pub patient: [u8; 32],
    pub ipfs_cid: String,
    pub data_hash: [u8; 32],
}

/// The state that `pin_medical_data` works on: the registry, the slot of the
/// record to create, the patient and the current time.
#[derive(Clone, Debug)]
pub struct PinMedicalData {
    pub registry: HealthcareRegistry,
    pub pin_record: Option<IpfsPinRecord>,
    pub patient: [u8; 32],
    pub now: i64,
}

/// Records the pin metadata, counts it in the registry, and returns the event to emit.
/// The content hash is the caller's claim and is not checked.
pub fn pin_medical_data(ctx: &mut PinMedicalData, ipfs_cid: String, data_hash: [u8; 32]) -> (r: DataPinned)
    requires
        old(ctx).registry.ipfs_pin_count < u64::MAX,
    ensures
        r.patient == old(ctx).patient,
        r.ipfs_cid@ == ipfs_cid@,
        r.data_hash == data_hash,
        final(ctx).registry.ipfs_pin_count == old(ctx).registry.ipfs_pin_count + 1,
        final(ctx).registry.total_verifications == old(ctx).registry.total_verifications,
        final(ctx).registry.authority == old(ctx).registry.authority,
        final(ctx).registry.nist_compliant == old(ctx).registry.nist_compliant,
        final(ctx).pin_record is Some,
        final(ctx).pin_record->Some_0.patient == old(ctx).patient,
        final(ctx).pin_record->Some_0.ipfs_cid@ == ipfs_cid@,
        final(ctx).pin_record->Some_0.data_hash == data_hash,
        final(ctx).pin_record->Some_0.pinned_at == old(ctx).now,
        final(ctx).pin_record->Some_0.access_count == 0,
        final(ctx).patient == old(ctx).patient,
        final(ctx).now == old(ctx).now,
{
    let event = DataPinned { patient: ctx.patient, ipfs_cid: ipfs_cid.clone(), data_hash };
    ctx.pin_record = Some(
        IpfsPinRecord { patient: ctx.patient, ipfs_cid, data_hash, pinned_at: ctx.now, access_count: 0 },
    );
    ctx.registry.ipfs_pin_count = ctx.registry.ipfs_pin_count + 1;
    event
}

} // verus!
