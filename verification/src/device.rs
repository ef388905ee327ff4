//! Devices: how many there are, which one to open, and what the driver reports of one.
use vstd::prelude::*;
use vstd::utf8::*;
use crate::mem_size::{MemSize, mem_size_text};
use crate::text::{signed_decimal, signed_decimal_string, text_until_nul, until_nul};

verus! {

/// A device handle (`CNdev`).
#[derive(Clone, Copy, PartialEq, Eq, Structural, Hash, Debug)]
pub struct Device(pub i32);

/// What the driver reports of a device, ready to be shown.
#[derive(Debug)]
pub struct InfoFmt {
    pub device: Device,
    pub name: String,
    pub uuid: String,
    pub isa: i32,
    pub memory: MemSize,
}

/// The text of a device's report: `MLU<handle> (<name>: #<uuid>) isa=<isa> | memory=<size>`.
pub open spec fn info_text(
    device: i32,
    name: Seq<char>,
    uuid: Seq<char>,
    isa: i32,
    memory: usize,
) -> Seq<char> {
    seq!['M', 'L', 'U'] + signed_decimal(device as int) + seq![' ', '('] + name + seq![':', ' ', '#']
        + uuid + seq![')', ' ', 'i', 's', 'a', '='] + signed_decimal(isa as int) + seq![
        ' ',
        '|',
        ' ',
        'm',
        'e',
        'm',
        'o',
        'r',
        'y',
        '=',
    ] + mem_size_text(memory as nat)
}

/// The report holds each field verbatim at its place: `MLU`, the handle in decimal, ` (`, the
/// whole device name unchanged, `: #`, the whole UUID unchanged, `) isa=`, the instruction set
/// version in decimal, ` | memory=` and the size as `mem_size_text` writes it, one after the
/// other with nothing else between or after them.
pub proof fn lemma_info_text_fields(
    device: i32,
    name: Seq<char>,
    uuid: Seq<char>,
    isa: i32,
    memory: usize,
)
    ensures
        ({
            let t = info_text(device, name, uuid, isa, memory);
            let d = signed_decimal(device as int);
            let i = signed_decimal(isa as int);
            let m = mem_size_text(memory as nat);
            let pd: int = d.len() as int + 3;
            let pn: int = pd + 2;
            let pu: int = pn + name.len() + 3;
            let pi: int = pu + uuid.len() + 6;
            let pm: int = pi + i.len() + 10;
            &&& t.len() == pm + m.len()
            &&& t.subrange(0, 3) == seq!['M', 'L', 'U']
            &&& t.subrange(3, pd) == d
            &&& t.subrange(pd, pn) == seq![' ', '(']
            &&& t.subrange(pn, pn + name.len()) == name
            &&& t.subrange(pn + name.len(), pu) == seq![':', ' ', '#']
            &&& t.subrange(pu, pu + uuid.len()) == uuid
            &&& t.subrange(pu + uuid.len(), pi) == seq![')', ' ', 'i', 's', 'a', '=']
            &&& t.subrange(pi, pi + i.len()) == i
            &&& t.subrange(pi + i.len(), pm) == seq![
                ' ',
                '|',
                ' ',
                'm',
                'e',
                'm',
                'o',
                'r',
                'y',
                '=',
            ]
            &&& t.subrange(pm, t.len() as int) == m
        }),
{
    let t = info_text(device, name, uuid, isa, memory);
    let d = signed_decimal(device as int);
    let i = signed_decimal(isa as int);
    let m = mem_size_text(memory as nat);
    let pd: int = d.len() as int + 3;
    let pn: int = pd + 2;
    let pu: int = pn + name.len() + 3;
    let pi: int = pu + uuid.len() + 6;
    let pm: int = pi + i.len() + 10;
    assert(t.subrange(0, 3) =~= seq!['M', 'L', 'U']);
    assert(t.subrange(3, pd) =~= d);
    assert(t.subrange(pd, pn) =~= seq![' ', '(']);
    assert(t.subrange(pn, pn + name.len()) =~= name);
    assert(t.subrange(pn + name.len(), pu) =~= seq![':', ' ', '#']);
    assert(t.subrange(pu, pu + uuid.len()) =~= uuid);
    assert(t.subrange(pu + uuid.len(), pi) =~= seq![')', ' ', 'i', 's', 'a', '=']);
    assert(t.subrange(pi, pi + i.len()) =~= i);
    assert(t.subrange(pi + i.len(), pm) =~= seq![
        ' ',
        '|',
        ' ',
        'm',
        'e',
        'm',
        'o',
        'r',
        'y',
        '=',
    ]);
    assert(t.subrange(pm, t.len() as int) =~= m);
}

impl Device {
    /// The number of devices, from the count the driver reports.
    pub fn count(reported: i32) -> (n: usize)
        ensures
            n == reported as usize,
    {
        reported as usize
    }

    /// The index of the device to open when fetching one: the first, if there is any.
    pub fn fetch(count: usize) -> (index: Option<i32>)
        ensures
            index == (if count > 0 { Some(0i32) } else { None::<i32> }),
    {
        if count > 0 {
            Some(0)
        } else {
            None
        }
    }

    /// The device name held in the buffer the driver filled: the bytes before the first zero,
    /// as UTF-8.
    pub fn name(raw: &[u8]) -> (s: String)
        requires
            valid_utf8(until_nul(raw@)),
        ensures
            s@ == decode_utf8(until_nul(raw@)),
    {
        text_until_nul(raw)
    }

    /// The device UUID held in the buffer the driver filled: the bytes before the first zero,
    /// as UTF-8.
    pub fn uuid(raw: &[u8]) -> (s: String)
        requires
            valid_utf8(until_nul(raw@)),
        ensures
            s@ == decode_utf8(until_nul(raw@)),
    {
        text_until_nul(raw)
    }

    /// The total memory of the device, from the byte count the driver reports.
    pub fn total_memory(bytes: u64) -> (m: MemSize)
        ensures
            m == MemSize(bytes as usize),
    {
        MemSize(bytes as usize)
    }

    /// The report of this device, from its name, UUID, instruction set version and total memory.
    pub fn info(&self, name: String, uuid: String, isa: i32, memory: MemSize) -> (info: InfoFmt)
        ensures
            info.device == *self,
            info.name == name,
            info.uuid == uuid,
            info.isa == isa,
            info.memory == memory,
    {
        InfoFmt { device: *self, name, uuid, isa, memory }
    }
}

impl InfoFmt {
    /// The report as text.
    pub fn to_string(&self) -> (s: String)
        ensures
            s@ == info_text(self.device.0, self.name@, self.uuid@, self.isa, self.memory.0),
    {
        let mut s = String::from_str("MLU");
        let device = signed_decimal_string(self.device.0 as i64);
        s.append(device.as_str());
        s.append(" (");
        s.append(self.name.as_str());
        s.append(": #");
        s.append(self.uuid.as_str());
        s.append(") isa=");
        let isa = signed_decimal_string(self.isa as i64);
        s.append(isa.as_str());
        s.append(" | memory=");
        let memory = self.memory.to_string();
        s.append(memory.as_str());
        proof {
            reveal_strlit("MLU");
            reveal_strlit(" (");
            reveal_strlit(": #");
            reveal_strlit(") isa=");
            reveal_strlit(" | memory=");
            assert(s@ =~= info_text(self.device.0, self.name@, self.uuid@, self.isa, self.memory.0));
        }
        s
    }
}

} // verus!
