//! The announcement of a server on the local network.
use crate::text::concat;
use vstd::prelude::*;

verus! {

/// The type of the service that a server offers.
pub const SERVICE_TYPE: &'static str = "_cosmic-kvm._tcp.local.";

/// The property under which a server tells its device identifier.
pub const DEVICE_ID_PROPERTY: &'static str = "device_id";

/// A service, as `mdns_sd::ServiceInfo` holds it to be registered with a daemon. What it
/// holds is named by `type_of`, `fullname_of`, `host_of`, `port_of` and `properties_of`.
#[verifier::external_type_specification]
#[verifier::external_body]
pub struct ExServiceInfo(mdns_sd::ServiceInfo);

/// An error of the `mdns_sd` crate. Nothing is claimed of it.
#[verifier::external_type_specification]
#[verifier::external_body]
pub struct ExMdnsError(mdns_sd::Error);

/// The type of a service, as `mdns_sd::ServiceInfo::get_type` tells it.
pub uninterp spec fn type_of(info: mdns_sd::ServiceInfo) -> Seq<char>;

/// The full name of a service, as `mdns_sd::ServiceInfo::get_fullname` tells it.
pub uninterp spec fn fullname_of(info: mdns_sd::ServiceInfo) -> Seq<char>;

/// The host of a service, as `mdns_sd::ServiceInfo::get_hostname` tells it.
pub uninterp spec fn host_of(info: mdns_sd::ServiceInfo) -> Seq<char>;

/// The port of a service, as `mdns_sd::ServiceInfo::get_port` tells it.
pub uninterp spec fn port_of(info: mdns_sd::ServiceInfo) -> u16;

/// The properties of a service, as `mdns_sd::ServiceInfo::get_properties` tells them.
pub uninterp spec fn properties_of(info: mdns_sd::ServiceInfo) -> Map<Seq<char>, Seq<char>>;

/// Whether a text ends with another one.
pub open spec fn ends_with(text: Seq<char>, end: Seq<char>) -> bool {
    end.len() <= text.len() && text.skip(text.len() - end.len()) == end
}

/// Whether a text holds another one.
pub open spec fn holds(text: Seq<char>, part: Seq<char>) -> bool {
    exists|i: int|
        0 <= i <= text.len() - part.len() && #[trigger] text.subrange(i, i + part.len()) == part
}

/// A host name without a second ".local" at its end.
pub open spec fn normalized(host: Seq<char>) -> Seq<char> {
    if ends_with(host, ".local.local."@) {
        host.take(host.len() - "local."@.len())
    } else {
        host
    }
}

/// The key of a property: ASCII, and without an equals sign.
pub open spec fn is_property_key(key: Seq<char>) -> bool {
    forall|i: int| 0 <= i < key.len() ==> (#[trigger] key[i] as u32) < 0x80 && key[i] != '='
}

/// Calls `mdns_sd::ServiceInfo::new`, without addresses and with a single property.
/// It fails exactly if the key of the property is not ASCII or holds an equals sign.
/// Otherwise the service has the type, the port and the property that it was given, the
/// full name made of the instance and the type, and the host, in which a second ".local"
/// at the end is dropped. A type that names a subtype is left out, because it is taken
/// apart.
#[verifier::external_body]
pub(crate) fn new_service(
    service_type: &str,
    instance: &str,
    host: &str,
    port: u16,
    key: &str,
    value: &str,
) -> (r: Result<mdns_sd::ServiceInfo, mdns_sd::Error>)
    requires
        !holds(service_type@, "._sub."@),
    ensures
        r is Ok <==> is_property_key(key@),
        r matches Ok(info) ==> type_of(info) == service_type@,
        r matches Ok(info) ==> fullname_of(info) == instance@ + "."@ + service_type@,
        r matches Ok(info) ==> host_of(info) == normalized(host@),
        r matches Ok(info) ==> port_of(info) == port,
        r matches Ok(info) ==> properties_of(info) == map![key@ => value@],
{
    let mut properties = std::collections::HashMap::new();
    properties.insert(key.to_string(), value.to_string());
    mdns_sd::ServiceInfo::new(service_type, instance, host, (), port, Some(properties))
}

/// The host name of a machine on the local network.
pub fn local_hostname(hostname: &str) -> (r: String)
    ensures
        r@ == hostname@ + ".local."@,
{
    concat(hostname, ".local.")
}

/// A service that cannot be announced.
#[derive(Debug)]
pub struct DiscoveryError {
    pub cause: mdns_sd::Error,
}

/// The type of the service of a server names no subtype.
proof fn lemma_no_subtype()
    ensures
        !holds("_cosmic-kvm._tcp.local."@, "._sub."@),
{
    reveal_strlit("_cosmic-kvm._tcp.local.");
    reveal_strlit("._sub.");
    let text = "_cosmic-kvm._tcp.local."@;
    let part = "._sub."@;
    assert forall|i: int| 0 <= i <= text.len() - part.len() implies #[trigger] text.subrange(
        i,
        i + part.len(),
    ) != part by {
        let found = text.subrange(i, i + part.len());
        assert(part[1] == '_' && part[2] == 's');
        assert(found[1] == text[i + 1] && found[2] == text[i + 2]);
        if text[i + 1] == '_' {
            assert(i + 1 == 12);
            assert(text[13] == 't');
        }
    }
}

/// The service under which a server announces itself: its type, the name of the
/// device, the host and the port, and the identifier of the device.
pub fn advertisement(device_name: &str, port: u16, device_id: &str, hostname: &str) -> (r: Result<
    mdns_sd::ServiceInfo,
    DiscoveryError,
>)
    ensures
        r matches Ok(info) && {
            &&& type_of(info) == "_cosmic-kvm._tcp.local."@
            &&& fullname_of(info) == device_name@ + "."@ + "_cosmic-kvm._tcp.local."@
            &&& host_of(info) == normalized(hostname@ + ".local."@)
            &&& port_of(info) == port
            &&& properties_of(info) == map!["device_id"@ => device_id@]
        },
{
    let host = local_hostname(hostname);
    proof {
        reveal_strlit("device_id");
        lemma_no_subtype();
    }
    match new_service(
        SERVICE_TYPE,
        device_name,
        host.as_str(),
        port,
        DEVICE_ID_PROPERTY,
        device_id,
    ) {
        Ok(info) => Ok(info),
        Err(cause) => Err(DiscoveryError { cause }),
    }
}

} // verus!
