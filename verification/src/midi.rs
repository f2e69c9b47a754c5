//! MIDI device enumeration.
use vstd::prelude::*;

verus! {

/// Basic information about a connected MIDI device.
#[derive(Debug, Clone)]
pub struct MidiDeviceInfo {
    pub name: String,
    pub port_index: usize,
}

/// The devices listed for the input ports whose names could be read:
/// `names[i]` is the name of port `i`, or `None` when it could not be read.
pub open spec fn device_list(names: Seq<Option<String>>) -> Seq<MidiDeviceInfo>
    decreases names.len(),
{
    if names.len() == 0 {
        Seq::empty()
    } else {
        let i = names.len() - 1;
        device_list(names.drop_last()) + match names[i] {
            Some(n) => seq![MidiDeviceInfo { name: n, port_index: i as usize }],
            None => Seq::empty(),
        }
    }
}

/// The device list for the ports of a MIDI input: every port whose name
/// could be read, in port order, with its index.
pub fn devices_from_port_names(names: &Vec<Option<String>>) -> (res: Vec<MidiDeviceInfo>)
    ensures
        res@ == device_list(names@),
{
    let mut devices: Vec<MidiDeviceInfo> = Vec::new();
    let mut i: usize = 0;
    while i < names.len()
        invariant
            i <= names@.len(),
            devices@ == device_list(names@.subrange(0, i as int)),
        decreases names.len() - i,
    {
        let ghost before = devices@;
        match &names[i] {
            Some(n) => {
                devices.push(MidiDeviceInfo { name: n.clone(), port_index: i });
            },
            None => {},
        }
        proof {
            let p = names@.subrange(0, i + 1);
            assert(p.drop_last() =~= names@.subrange(0, i as int));
            assert(p[i as int] == names@[i as int]);
            assert(devices@ =~= device_list(p));
        }
        i = i + 1;
    }
    assert(names@.subrange(0, names@.len() as int) =~= names@);
    devices
}

} // verus!
