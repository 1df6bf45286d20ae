use vstd::prelude::*;

verus! {

/// One decoded account as the snapshot extractor yields it: the account's
/// state at the slot where it was stored.
pub struct AccountRecord {
    pub address: [u8; 32],
    pub owner: [u8; 32],
    pub lamports: u64,
    /// The length of the account data as the stored record declares it.
    pub data_len: u64,
    /// The account data bytes that the extractor could read for this record.
    pub data: Vec<u8>,
    pub executable: bool,
    pub rent_epoch: u64,
    pub write_version: u64,
    pub slot: u64,
}

/// What the plugin's account-update entry point receives for one record.
pub struct NotificationPayload {
    pub pubkey: [u8; 32],
    pub owner: [u8; 32],
    pub lamports: u64,
    pub data: Vec<u8>,
    pub executable: bool,
    pub rent_epoch: u64,
    pub write_version: u64,
    pub slot: u64,
}

/// A record whose data bytes are not all there cannot be handed to the plugin.
pub struct Truncated {
    pub declared_len: u64,
    pub available_len: u64,
}

/// A record can be represented as a payload when all its declared data is present.
pub open spec fn record_fits(r: AccountRecord) -> bool {
    r.data@.len() == r.data_len as int
}

/// The payload of a record: every field carried over unchanged.
pub open spec fn payload_of(r: AccountRecord) -> NotificationPayload {
    NotificationPayload {
        pubkey: r.address,
        owner: r.owner,
        lamports: r.lamports,
        data: r.data,
        executable: r.executable,
        rent_epoch: r.rent_epoch,
        write_version: r.write_version,
        slot: r.slot,
    }
}

impl AccountRecord {
    /// Builds the plugin payload for this record, or reports that its data is
    /// truncated.
    pub fn into_payload(self) -> (r: Result<NotificationPayload, Truncated>)
        ensures
            record_fits(self) ==> r == Ok::<NotificationPayload, Truncated>(payload_of(self)),
            !record_fits(self) ==> r == Err::<NotificationPayload, Truncated>(
                Truncated { declared_len: self.data_len, available_len: self.data@.len() as u64 },
            ),
            r matches Ok(p) ==> p.pubkey@ == self.address@ && p.owner@ == self.owner@
                && p.lamports == self.lamports && p.data@ == self.data@
                && p.executable == self.executable && p.rent_epoch == self.rent_epoch,
    {
        let available_len = self.data.len() as u64;
        if available_len != self.data_len {
            return Err(Truncated { declared_len: self.data_len, available_len });
        }
        Ok(NotificationPayload {
            pubkey: self.address,
            owner: self.owner,
            lamports: self.lamports,
            data: self.data,
            executable: self.executable,
            rent_epoch: self.rent_epoch,
            write_version: self.write_version,
            slot: self.slot,
        })
    }
}

} // verus!
