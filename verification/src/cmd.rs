use vstd::prelude::*;

use crate::codec::cr_pack;
use crate::codec::cr_unpack;
use crate::codec::spec_cr_pack;
use crate::codec::spec_cr_unpack;
use crate::types::ARef;
use crate::types::ConvertTrigger;
use crate::types::ScanBeginTrigger;
use crate::types::ScanEndTrigger;
use crate::types::StartTrigger;
use crate::types::StopTrigger;

verus! {

/// The packed channel-descriptor words of a channel list.
pub open spec fn spec_pack_list(l: Seq<(u32, u32, ARef)>) -> Seq<u32> {
    l.map_values(|t: (u32, u32, ARef)| spec_cr_pack(t.0, t.1, t.2.code()))
}

/// The decoded triples of a sequence of packed channel-descriptor words.
pub open spec fn spec_unpack_list(words: Seq<u32>) -> Seq<(u32, u32, ARef)> {
    words.map_values(|w: u32| spec_cr_unpack(w))
}

/// Mathematical model of a command descriptor: the subdevice index, the five
/// trigger source/argument pairs as raw driver codes, and the packed channel
/// list, absent until one has been installed.
pub ghost struct CmdView {
    pub subdev: u32,
    pub start_src: u32,
    pub start_arg: u32,
    pub scan_begin_src: u32,
    pub scan_begin_arg: u32,
    pub convert_src: u32,
    pub convert_arg: u32,
    pub scan_end_src: u32,
    pub scan_end_arg: u32,
    pub stop_src: u32,
    pub stop_arg: u32,
    pub chanlist: Option<Seq<u32>>,
}

/// An acquisition-command descriptor: a subdevice index, a trigger
/// source/argument pair for each of the five command phases, and an owned
/// channel list kept as its packed words. The packed words and their count
/// are one field, so the pair can never fall out of step, and no view into
/// the list outlives the descriptor that owns it.
///
/// Trigger fields hold raw driver codes: the driver fills and adjusts them
/// through the validation protocol, and a field is decoded to its phase enum
/// only on request. A raw code outside the phase's enum is a contract
/// violation between the code tables and the driver, so the typed getters
/// demand in-domain fields rather than mend them.
pub struct Cmd {
    subdev: u32,
    start_src: u32,
    start_arg: u32,
    scan_begin_src: u32,
    scan_begin_arg: u32,
    convert_src: u32,
    convert_arg: u32,
    scan_end_src: u32,
    scan_end_arg: u32,
    stop_src: u32,
    stop_arg: u32,
    chanlist: Option<Vec<u32>>,
}

impl View for Cmd {
    type V = CmdView;

    closed spec fn view(&self) -> CmdView {
        CmdView {
            subdev: self.subdev,
            start_src: self.start_src,
            start_arg: self.start_arg,
            scan_begin_src: self.scan_begin_src,
            scan_begin_arg: self.scan_begin_arg,
            convert_src: self.convert_src,
            convert_arg: self.convert_arg,
            scan_end_src: self.scan_end_src,
            scan_end_arg: self.scan_end_arg,
            stop_src: self.stop_src,
            stop_arg: self.stop_arg,
            chanlist: match self.chanlist {
                Option::Some(ref words) => Option::Some(words@),
                Option::None => Option::None,
            },
        }
    }
}

impl Cmd {
    /// Builds a descriptor from the raw field values a driver template
    /// reports. No channel list is installed yet: the template's list is
    /// empty until the caller provides one.
    pub fn from_raw(
        subdev: u32,
        start_src: u32,
        start_arg: u32,
        scan_begin_src: u32,
        scan_begin_arg: u32,
        convert_src: u32,
        convert_arg: u32,
        scan_end_src: u32,
        scan_end_arg: u32,
        stop_src: u32,
        stop_arg: u32,
    ) -> (r: Cmd)
        ensures
            r@ == (CmdView {
                subdev,
                start_src,
                start_arg,
                scan_begin_src,
                scan_begin_arg,
                convert_src,
                convert_arg,
                scan_end_src,
                scan_end_arg,
                stop_src,
                stop_arg,
                chanlist: Option::None,
            }),
    {
        Cmd {
            subdev,
            start_src,
            start_arg,
            scan_begin_src,
            scan_begin_arg,
            convert_src,
            convert_arg,
            scan_end_src,
            scan_end_arg,
            stop_src,
            stop_arg,
            chanlist: Option::None,
        }
    }

    pub fn subdev(&self) -> (r: u32)
        ensures
            r == self@.subdev,
    {
        self.subdev
    }

    /// The start phase's trigger source, decoded. The field must hold one of
    /// the phase's legal codes; anything else means the code tables and the
    /// driver disagree, which callers must treat as fatal.
    pub fn start_src(&self) -> (r: StartTrigger)
        requires
            StartTrigger::spec_from_repr(self@.start_src) is Some,
        ensures
            Some(r) == StartTrigger::spec_from_repr(self@.start_src),
    {
        StartTrigger::from_repr(self.start_src).unwrap()
    }

    pub fn start_arg(&self) -> (r: u32)
        ensures
            r == self@.start_arg,
    {
        self.start_arg
    }

    /// The scan-begin phase's trigger source, decoded; the field must be a
    /// legal code for the phase.
    pub fn scan_begin_src(&self) -> (r: ScanBeginTrigger)
        requires
            ScanBeginTrigger::spec_from_repr(self@.scan_begin_src) is Some,
        ensures
            Some(r) == ScanBeginTrigger::spec_from_repr(self@.scan_begin_src),
    {
        ScanBeginTrigger::from_repr(self.scan_begin_src).unwrap()
    }

    pub fn scan_begin_arg(&self) -> (r: u32)
        ensures
            r == self@.scan_begin_arg,
    {
        self.scan_begin_arg
    }

    /// The convert phase's trigger source, decoded; the field must be a
    /// legal code for the phase.
    pub fn convert_src(&self) -> (r: ConvertTrigger)
        requires
            ConvertTrigger::spec_from_repr(self@.convert_src) is Some,
        ensures
            Some(r) == ConvertTrigger::spec_from_repr(self@.convert_src),
    {
        ConvertTrigger::from_repr(self.convert_src).unwrap()
    }

    pub fn convert_arg(&self) -> (r: u32)
        ensures
            r == self@.convert_arg,
    {
        self.convert_arg
    }

    /// The scan-end phase's trigger source, decoded; the field must be a
    /// legal code for the phase.
    pub fn scan_end_src(&self) -> (r: ScanEndTrigger)
        requires
            ScanEndTrigger::spec_from_repr(self@.scan_end_src) is Some,
        ensures
            Some(r) == ScanEndTrigger::spec_from_repr(self@.scan_end_src),
    {
        ScanEndTrigger::from_repr(self.scan_end_src).unwrap()
    }

    pub fn scan_end_arg(&self) -> (r: u32)
        ensures
            r == self@.scan_end_arg,
    {
        self.scan_end_arg
    }

    /// The stop phase's trigger source, decoded; the field must be a legal
    /// code for the phase.
    pub fn stop_src(&self) -> (r: StopTrigger)
        requires
            StopTrigger::spec_from_repr(self@.stop_src) is Some,
        ensures
            Some(r) == StopTrigger::spec_from_repr(self@.stop_src),
    {
        StopTrigger::from_repr(self.stop_src).unwrap()
    }

    pub fn stop_arg(&self) -> (r: u32)
        ensures
            r == self@.stop_arg,
    {
        self.stop_arg
    }

    /// The raw code in the start phase's trigger field.
    pub fn start_src_raw(&self) -> (r: u32)
        ensures
            r == self@.start_src,
    {
        self.start_src
    }

    /// The raw code in the scan-begin phase's trigger field.
    pub fn scan_begin_src_raw(&self) -> (r: u32)
        ensures
            r == self@.scan_begin_src,
    {
        self.scan_begin_src
    }

    /// The raw code in the convert phase's trigger field.
    pub fn convert_src_raw(&self) -> (r: u32)
        ensures
            r == self@.convert_src,
    {
        self.convert_src
    }

    /// The raw code in the scan-end phase's trigger field.
    pub fn scan_end_src_raw(&self) -> (r: u32)
        ensures
            r == self@.scan_end_src,
    {
        self.scan_end_src
    }

    /// The raw code in the stop phase's trigger field.
    pub fn stop_src_raw(&self) -> (r: u32)
        ensures
            r == self@.stop_src,
    {
        self.stop_src
    }

    /// The installed channel list as its packed words, if one has been
    /// installed.
    pub fn chanlist_words(&self) -> (r: Option<&Vec<u32>>)
        ensures
            match r {
                Some(words) => self@.chanlist == Some(words@),
                None => self@.chanlist is None,
            },
    {
        match &self.chanlist {
            Some(words) => Some(words),
            None => None,
        }
    }

    pub fn set_subdev(&mut self, subdev: u32)
        ensures
            final(self)@ == (CmdView { subdev, ..old(self)@ }),
    {
        self.subdev = subdev;
    }

    /// Overwrites the start phase's trigger source and argument. No
    /// validation happens here: legality is established only by the
    /// validation protocol.
    pub fn set_start(&mut self, src: StartTrigger, arg: u32)
        ensures
            final(self)@ == (CmdView {
                start_src: src.code(),
                start_arg: arg,
                ..old(self)@
            }),
    {
        self.start_src = src.repr();
        self.start_arg = arg;
    }

    /// Overwrites the scan-begin phase's trigger source and argument.
    pub fn set_scan_begin(&mut self, src: ScanBeginTrigger, arg: u32)
        ensures
            final(self)@ == (CmdView {
                scan_begin_src: src.code(),
                scan_begin_arg: arg,
                ..old(self)@
            }),
    {
        self.scan_begin_src = src.repr();
        self.scan_begin_arg = arg;
    }

    /// Overwrites the convert phase's trigger source and argument.
    pub fn set_convert(&mut self, src: ConvertTrigger, arg: u32)
        ensures
            final(self)@ == (CmdView {
                convert_src: src.code(),
                convert_arg: arg,
                ..old(self)@
            }),
    {
        self.convert_src = src.repr();
        self.convert_arg = arg;
    }

    /// Overwrites the scan-end phase's trigger source and argument.
    pub fn set_scan_end(&mut self, src: ScanEndTrigger, arg: u32)
        ensures
            final(self)@ == (CmdView {
                scan_end_src: src.code(),
                scan_end_arg: arg,
                ..old(self)@
            }),
    {
        self.scan_end_src = src.repr();
        self.scan_end_arg = arg;
    }

    /// Overwrites the stop phase's trigger source and argument.
    pub fn set_stop(&mut self, src: StopTrigger, arg: u32)
        ensures
            final(self)@ == (CmdView {
                stop_src: src.code(),
                stop_arg: arg,
                ..old(self)@
            }),
    {
        self.stop_src = src.repr();
        self.stop_arg = arg;
    }

    /// Installs a channel list: packs every triple and replaces the owned
    /// word buffer in one step, so the stored words always are the packed
    /// form of the latest list, with its length implied by the buffer.
    pub fn set_chanlist(&mut self, chanlist: &[(u32, u32, ARef)])
        ensures
            final(self)@ == (CmdView {
                chanlist: Some(spec_pack_list(chanlist@)),
                ..old(self)@
            }),
    {
        let mut words: Vec<u32> = Vec::new();
        let mut i: usize = 0;
        while i < chanlist.len()
            invariant
                i <= chanlist@.len(),
                words@.len() == i,
                forall|j: int| 0 <= j < i ==> words@[j] == spec_pack_list(chanlist@)[j],
            decreases chanlist@.len() - i,
        {
            let (chan, rng, aref) = chanlist[i];
            words.push(cr_pack(chan, rng, aref));
            i = i + 1;
        }
        assert(words@ =~= spec_pack_list(chanlist@));
        self.chanlist = Some(words);
    }

    /// Installs a channel list that is already in its packed form, replacing
    /// any installed list. The device-facing layer uses this to mirror a
    /// descriptor whose packed words the driver filled or adjusted.
    pub fn set_chanlist_raw(&mut self, words: Vec<u32>)
        ensures
            final(self)@ == (CmdView { chanlist: Some(words@), ..old(self)@ }),
    {
        self.chanlist = Some(words);
    }

    /// The installed channel list, decoded word by word; absent if no list
    /// has ever been installed.
    pub fn chanlist(&self) -> (r: Option<Vec<(u32, u32, ARef)>>)
        ensures
            match r {
                Some(l) => {
                    &&& self@.chanlist is Some
                    &&& l@ == spec_unpack_list(self@.chanlist.unwrap())
                },
                None => self@.chanlist is None,
            },
    {
        match &self.chanlist {
            Some(words) => {
                let mut out: Vec<(u32, u32, ARef)> = Vec::new();
                let mut i: usize = 0;
                while i < words.len()
                    invariant
                        i <= words@.len(),
                        out@.len() == i,
                        forall|j: int| 0 <= j < i ==> out@[j] == spec_unpack_list(words@)[j],
                    decreases words@.len() - i,
                {
                    out.push(cr_unpack(words[i]));
                    i = i + 1;
                }
                assert(out@ =~= spec_unpack_list(words@));
                Some(out)
            },
            None => None,
        }
    }
}

/// Channel-list consistency: decoding the packed form of any in-width list
/// gives the list back element for element. With set_chanlist's and
/// chanlist's contracts this says that once a list is installed, reading the
/// channel list returns exactly that list.
pub proof fn lemma_chanlist_round_trip(l: Seq<(u32, u32, ARef)>)
    requires
        forall|i: int| 0 <= i < l.len() ==> (#[trigger] l[i]).0 <= 0xff && l[i].1 <= 0xff,
    ensures
        spec_unpack_list(spec_pack_list(l)) =~= l,
{
    assert forall|i: int| 0 <= i < l.len() implies spec_unpack_list(spec_pack_list(l))[i]
        == l[i] by {
        crate::codec::lemma_cr_round_trip(l[i].0, l[i].1, l[i].2);
    }
}

} // verus!
