//! Certificates, authority snapshots and device lists, as far as decisions read them.

use crate::ids::{AccountId, Digest, DeviceId};
use vstd::prelude::*;

verus! {

/// Which network paths a connection may use.
#[derive(Clone, Copy, Debug, PartialEq, Eq, Structural)]
pub enum RoutePolicy {
    Auto,
    DirectOnly,
    RelayOnly,
}

/// A device certificate. Two certificates are the same where their encodings have the same
/// digest.
#[derive(Clone, Copy, Debug, PartialEq, Eq, Structural)]
pub struct DeviceCertificate {
    pub account_id: AccountId,
    pub device_id: DeviceId,
    pub digest: Digest,
}

/// The signed state of an account root.
#[derive(Clone, Copy, Debug, PartialEq, Eq, Structural)]
pub struct AuthoritySnapshot {
    pub account_id: AccountId,
    pub revision: u64,
    pub digest: Digest,
}

/// The signed list of an account's devices, with the authority snapshot that it embeds. Two
/// lists are the same where their encodings have the same digest.
#[derive(Debug)]
pub struct AccountDeviceList {
    pub authority: AuthoritySnapshot,
    pub certificates: Vec<DeviceCertificate>,
    pub digest: Digest,
}

/// Limits of the history protocol.
#[derive(Clone, Copy, Debug, PartialEq, Eq, Structural)]
pub struct ProtocolLimits {
    /// The most events that an inventory can name.
    pub max_inventory_event_ids: u64,
    /// The most events that one rewrap bundle can carry.
    pub max_history_rewrap_entries: u64,
}

/// The first certificate of `certificates` that names `device`.
pub open spec fn certificate_of(
    certificates: Seq<DeviceCertificate>,
    device: DeviceId,
) -> Option<DeviceCertificate>
    decreases certificates.len(),
{
    if certificates.len() == 0 {
        None
    } else if certificates[0].device_id == device {
        Some(certificates[0])
    } else {
        certificate_of(certificates.drop_first(), device)
    }
}

impl AccountDeviceList {
    /// Another copy of the list.
    pub fn duplicate(&self) -> (r: AccountDeviceList)
        ensures
            r.authority == self.authority,
            r.certificates@ == self.certificates@,
            r.digest == self.digest,
    {
        let certificates = self.certificates.clone();
        assert(certificates@ =~= self.certificates@);
        AccountDeviceList { authority: self.authority, certificates, digest: self.digest }
    }

    /// The certificate that the list holds for `device`.
    pub fn certificate_for(&self, device: DeviceId) -> (r: Option<DeviceCertificate>)
        ensures
            r == certificate_of(self.certificates@, device),
    {
        let mut i: usize = 0;
        assert(self.certificates@.skip(0) == self.certificates@);
        while i < self.certificates.len()
            invariant
                i <= self.certificates.len(),
                certificate_of(self.certificates@, device) == certificate_of(
                    self.certificates@.skip(i as int),
                    device,
                ),
            decreases self.certificates.len() - i,
        {
            let certificate = self.certificates[i];
            if certificate.device_id == device {
                return Some(certificate);
            }
            assert(self.certificates@.skip(i as int).drop_first() == self.certificates@.skip(
                i + 1,
            ));
            i += 1;
        }
        None
    }
}

/// A list holds a certificate for a device exactly where one of its certificates names the
/// device, and the first that does is the one.
pub proof fn listed_certificate_names_its_device(
    certificates: Seq<DeviceCertificate>,
    device: DeviceId,
)
    ensures
        match certificate_of(certificates, device) {
            None => forall|i: int|
                0 <= i < certificates.len() ==> (#[trigger] certificates[i]).device_id != device,
            Some(found) => found.device_id == device && exists|i: int|
                {
                    &&& 0 <= i < certificates.len()
                    &&& #[trigger] certificates[i] == found
                    &&& forall|j: int|
                        0 <= j < i ==> (#[trigger] certificates[j]).device_id != device
                },
        },
    decreases certificates.len(),
{
    if certificates.len() > 0 {
        let rest = certificates.drop_first();
        listed_certificate_names_its_device(rest, device);
        if certificates[0].device_id == device {
            assert(certificates[0] == certificate_of(certificates, device)->0);
        } else {
            match certificate_of(rest, device) {
                None => {
                    assert forall|i: int| 0 <= i < certificates.len() implies (
                    #[trigger] certificates[i]).device_id != device by {
                        if i > 0 {
                            assert(rest[i - 1].device_id != device);
                        }
                    }
                },
                Some(found) => {
                    let i = choose|i: int|
                        {
                            &&& 0 <= i < rest.len()
                            &&& #[trigger] rest[i] == found
                            &&& forall|j: int|
                                0 <= j < i ==> (#[trigger] rest[j]).device_id != device
                        };
                    assert(certificates[i + 1] == found);
                    assert forall|j: int| 0 <= j < i + 1 implies (
                    #[trigger] certificates[j]).device_id != device by {
                        if j > 0 {
                            assert(rest[j - 1].device_id != device);
                        }
                    }
                },
            }
        }
    }
}

/// One of the certificates of the list names the device.
pub open spec fn lists_device(list: AccountDeviceList, device: DeviceId) -> bool {
    exists|i: int|
        0 <= i < list.certificates@.len() && (#[trigger] list.certificates@[i]).device_id == device
}

/// The certificate is the first of the list that names its device.
pub open spec fn is_first_certificate(list: AccountDeviceList, own: DeviceCertificate) -> bool {
    exists|i: int|
        {
            &&& 0 <= i < list.certificates@.len()
            &&& #[trigger] list.certificates@[i] == own
            &&& forall|j: int|
                0 <= j < i ==> (#[trigger] list.certificates@[j]).device_id != own.device_id
        }
}

/// A certificate is found for a device exactly where the list names the device, and the one that
/// is found is the first that does.
pub proof fn listing_is_exact(list: AccountDeviceList, device: DeviceId, own: DeviceCertificate)
    ensures
        certificate_of(list.certificates@, device) is Some <==> lists_device(list, device),
        certificate_of(list.certificates@, own.device_id) == Some(own) <==> is_first_certificate(
            list,
            own,
        ),
{
    let certificates = list.certificates@;
    listed_certificate_names_its_device(certificates, device);
    listed_certificate_names_its_device(certificates, own.device_id);
    if is_first_certificate(list, own) {
        let i = choose|i: int|
            {
                &&& 0 <= i < certificates.len()
                &&& #[trigger] certificates[i] == own
                &&& forall|j: int|
                    0 <= j < i ==> (#[trigger] certificates[j]).device_id != own.device_id
            };
        assert(certificates[i].device_id == own.device_id);
    }
}

} // verus!
