use vstd::prelude::*;

verus! {

/// Number of argument bytes a controller report carries.
pub const ARGS_LEN: usize = 80;

/// A report exchanged with the laptop's embedded controller: a command class,
/// a command id, the number of meaningful argument bytes, and the arguments.
pub struct RazerPacket {
    pub command_class: u8,
    pub command_id: u8,
    pub data_size: u8,
    pub args: Vec<u8>,
}

/// The mathematical content of a report.
pub struct PacketView {
    pub command_class: u8,
    pub command_id: u8,
    pub data_size: u8,
    pub args: Seq<u8>,
}

impl View for RazerPacket {
    type V = PacketView;

    open spec fn view(&self) -> PacketView {
        PacketView {
            command_class: self.command_class,
            command_id: self.command_id,
            data_size: self.data_size,
            args: self.args@,
        }
    }
}

/// XOR of the bytes `s[lo..hi]`.
pub open spec fn xor_range(s: Seq<u8>, lo: int, hi: int) -> u8
    decreases hi - lo,
{
    if hi <= lo {
        0
    } else {
        xor_range(s, lo, hi - 1) ^ s[hi - 1]
    }
}

/// Length of a feature report carrying a controller report: a report id,
/// then 90 bytes.
pub const FEATURE_REPORT_LEN: usize = 91;
pub const TRANSACTION_ID: u8 = 0x1F;
pub const STATUS_SUCCESSFUL: u8 = 0x02;

/// The feature report that carries a report: report id 0, status new, the
/// transaction id, no remaining packets, protocol type 0, data size, command
/// class and id, the 80 arguments, the checksum of bytes 2..88 of the
/// 90-byte part, and a reserved 0.
pub open spec fn spec_feature_report(p: PacketView) -> Seq<u8> {
    let body = seq![0x00u8, TRANSACTION_ID, 0x00, 0x00, 0x00, p.data_size, p.command_class, p.command_id] + p.args;
    seq![0x00u8] + body + seq![xor_range(body, 2, 88), 0x00]
}

/// The report a feature report read back carries, when the controller
/// answered it successfully.
pub open spec fn spec_from_feature_report(buf: Seq<u8>, size: usize) -> Option<PacketView> {
    if size == FEATURE_REPORT_LEN && buf[1] == STATUS_SUCCESSFUL {
        Some(PacketView {
            command_class: buf[7],
            command_id: buf[8],
            data_size: buf[6],
            args: buf.subrange(9, 89),
        })
    } else {
        None
    }
}

/// `n` zero bytes.
pub open spec fn zeros(n: nat) -> Seq<u8> {
    Seq::new(n, |i: int| 0u8)
}

/// The report with the given header whose arguments start with `prefix` and
/// are zero after it.
pub open spec fn packet(command_class: u8, command_id: u8, data_size: u8, prefix: Seq<u8>) -> PacketView {
    PacketView {
        command_class,
        command_id,
        data_size,
        args: prefix + zeros((ARGS_LEN - prefix.len()) as nat),
    }
}

/// The views of a sequence of reports, in order.
pub open spec fn views(reports: Seq<RazerPacket>) -> Seq<PacketView> {
    reports.map_values(|r: RazerPacket| r@)
}

impl RazerPacket {
    /// A report carries exactly `ARGS_LEN` argument bytes.
    pub open spec fn wf(&self) -> bool {
        self.args.len() == ARGS_LEN
    }

    /// A report with the given header and all arguments zero.
    pub fn new(command_class: u8, command_id: u8, data_size: u8) -> (r: RazerPacket)
        ensures
            r.wf(),
            r@ == packet(command_class, command_id, data_size, seq![]),
    {
        let empty: Vec<u8> = Vec::new();
        Self::with_args(command_class, command_id, data_size, &empty)
    }

    /// A report with the given header whose arguments start with `prefix`,
    /// the rest being zero.
    pub fn with_args(command_class: u8, command_id: u8, data_size: u8, prefix: &Vec<u8>) -> (r: RazerPacket)
        requires
            prefix.len() <= ARGS_LEN,
        ensures
            r.wf(),
            r@ == packet(command_class, command_id, data_size, prefix@),
    {
        let mut args: Vec<u8> = Vec::new();
        let mut i: usize = 0;
        while i < prefix.len()
            invariant
                i <= prefix.len() <= ARGS_LEN,
                args@ == prefix@.subrange(0, i as int),
            decreases prefix.len() - i,
        {
            args.push(prefix[i]);
            i = i + 1;
        }
        while args.len() < ARGS_LEN
            invariant
                prefix.len() <= args.len() <= ARGS_LEN,
                args@.subrange(0, prefix.len() as int) == prefix@,
                forall|j: int| prefix.len() <= j < args.len() ==> args@[j] == 0u8,
            decreases ARGS_LEN - args.len(),
        {
            args.push(0u8);
        }
        let r = RazerPacket { command_class, command_id, data_size, args };
        assert(r@.args =~= prefix@ + zeros((ARGS_LEN - prefix.len()) as nat));
        r
    }

    /// The feature report that carries this report (see `spec_feature_report`).
    pub fn to_feature_report(&self) -> (buf: Vec<u8>)
        requires
            self.wf(),
        ensures
            buf@ == spec_feature_report(self@),
            buf.len() == FEATURE_REPORT_LEN,
    {
        let mut body: Vec<u8> = vec![0x00, TRANSACTION_ID, 0x00, 0x00, 0x00, self.data_size, self.command_class, self.command_id];
        let ghost head = body@;
        let mut i: usize = 0;
        while i < self.args.len()
            invariant
                i <= self.args.len() == ARGS_LEN,
                head.len() == 8,
                body@ == head + self.args@.subrange(0, i as int),
            decreases self.args.len() - i,
        {
            body.push(self.args[i]);
            i = i + 1;
            assert(body@ =~= head + self.args@.subrange(0, i as int));
        }
        assert(self.args@.subrange(0, ARGS_LEN as int) =~= self.args@);
        assert(head =~= seq![0x00u8, TRANSACTION_ID, 0x00, 0x00, 0x00, self.data_size, self.command_class, self.command_id]);
        let mut crc = 0u8;
        let mut k: usize = 2;
        while k < 88
            invariant
                2 <= k <= 88,
                body.len() == 88,
                crc == xor_range(body@, 2, k as int),
            decreases 88 - k,
        {
            crc ^= body[k];
            k = k + 1;
        }
        let mut buf: Vec<u8> = vec![0x00];
        let mut j: usize = 0;
        while j < body.len()
            invariant
                j <= body.len(),
                buf@ == seq![0x00u8] + body@.subrange(0, j as int),
            decreases body.len() - j,
        {
            buf.push(body[j]);
            j = j + 1;
            assert(buf@ =~= seq![0x00u8] + body@.subrange(0, j as int));
        }
        assert(body@.subrange(0, body.len() as int) =~= body@);
        buf.push(crc);
        buf.push(0x00);
        assert(buf@ =~= spec_feature_report(self@));
        buf
    }

    /// The report carried by a feature report read back (`size` bytes were
    /// read into `buf`), when the controller answered it successfully.
    pub fn from_feature_report(buf: &Vec<u8>, size: usize) -> (r: Option<RazerPacket>)
        requires
            buf.len() == FEATURE_REPORT_LEN,
        ensures
            match spec_from_feature_report(buf@, size) {
                Some(v) => r matches Some(p) && p@ == v && p.wf(),
                None => r is None,
            },
    {
        if size != FEATURE_REPORT_LEN || buf[1] != STATUS_SUCCESSFUL {
            return None;
        }
        let mut args: Vec<u8> = Vec::new();
        let mut i: usize = 9;
        while i < 89
            invariant
                9 <= i <= 89,
                buf.len() == FEATURE_REPORT_LEN,
                args@ == buf@.subrange(9, i as int),
            decreases 89 - i,
        {
            args.push(buf[i]);
            i = i + 1;
            assert(args@ =~= buf@.subrange(9, i as int));
        }
        Some(RazerPacket { command_class: buf[7], command_id: buf[8], data_size: buf[6], args })
    }

    /// The argument byte at `index`.
    pub fn arg(&self, index: usize) -> (b: u8)
        requires
            index < self.args.len(),
        ensures
            b == self.args@[index as int],
    {
        self.args[index]
    }
}

} // verus!
