//! Transactions of a QSPI bus and the transfer requests they become.
use vstd::prelude::*;

verus! {

/// Number of data lines that a phase of a transaction uses.
#[derive(Clone, Copy, Debug, PartialEq, Eq)]
pub enum LineMode {
    /// The phase is not present.
    Absent,
    /// One line.
    Single,
    /// Two lines.
    Dual,
    /// Four lines.
    Quad,
}

/// Instruction or address phase of a transaction.
#[derive(Clone, Copy, Debug, PartialEq, Eq)]
pub struct PhaseConfig {
    /// Value sent in the phase.
    pub value: u32,
    /// Number of bytes of the value that are sent.
    pub bytes_len: u8,
    /// Lines used in the phase.
    pub mode: LineMode,
}

/// A transaction on the bus, without its payload.
#[derive(Clone, Copy, Debug, PartialEq, Eq)]
pub struct QspiTransaction {
    /// Instruction phase, if there is one.
    pub instruction: Option<PhaseConfig>,
    /// Address phase, if there is one.
    pub address: Option<PhaseConfig>,
    /// Dummy cycles between the address and the data.
    pub dummy_cycles: u8,
    /// Lines used in the data phase.
    pub data_mode: LineMode,
}

/// Line setting of the SPI peripheral.
#[derive(Clone, Copy, Debug, PartialEq, Eq)]
pub enum DataMode {
    /// One line.
    Single,
    /// Two lines.
    Dual,
    /// Four lines.
    Quad,
}

/// Command phase of the SPI peripheral: width, value and lines.
#[derive(Clone, Copy, Debug, PartialEq, Eq)]
pub enum Command {
    /// No command is sent.
    Absent,
    /// An 8-bit command.
    _8Bit(u16, DataMode),
    /// A 16-bit command.
    _16Bit(u16, DataMode),
}

/// Address phase of the SPI peripheral: width, value and lines.
#[derive(Clone, Copy, Debug, PartialEq, Eq)]
pub enum Address {
    /// No address is sent.
    Absent,
    /// An 8-bit address.
    _8Bit(u32, DataMode),
    /// A 16-bit address.
    _16Bit(u32, DataMode),
    /// A 24-bit address.
    _24Bit(u32, DataMode),
    /// A 32-bit address.
    _32Bit(u32, DataMode),
}

/// Everything the SPI peripheral has to know to run one half-duplex transfer,
/// apart from the memory it works on.
#[derive(Clone, Copy, Debug, PartialEq, Eq)]
pub struct TransferRequest {
    /// Lines of the data phase.
    pub data_mode: DataMode,
    /// Command phase.
    pub command: Command,
    /// Address phase.
    pub address: Address,
    /// Dummy cycles before the data phase.
    pub dummy_cycles: u8,
    /// Number of bytes in the data phase.
    pub length: usize,
}

impl LineMode {
    /// Number of lines that carry data; none for an absent phase.
    pub open spec fn lines(self) -> nat {
        match self {
            LineMode::Absent => 0,
            LineMode::Single => 1,
            LineMode::Dual => 2,
            LineMode::Quad => 4,
        }
    }
}

impl DataMode {
    /// Number of lines that carry data.
    pub open spec fn lines(self) -> nat {
        match self {
            DataMode::Single => 1,
            DataMode::Dual => 2,
            DataMode::Quad => 4,
        }
    }
}

impl Command {
    /// Number of bits sent.
    pub open spec fn width(self) -> nat {
        match self {
            Command::Absent => 0,
            Command::_8Bit(_, _) => 8,
            Command::_16Bit(_, _) => 16,
        }
    }

    /// Value and lines of the phase, if it is sent.
    pub open spec fn content(self) -> Option<(u16, DataMode)> {
        match self {
            Command::Absent => None,
            Command::_8Bit(value, mode) => Some((value, mode)),
            Command::_16Bit(value, mode) => Some((value, mode)),
        }
    }
}

impl Address {
    /// Number of bits sent.
    pub open spec fn width(self) -> nat {
        match self {
            Address::Absent => 0,
            Address::_8Bit(_, _) => 8,
            Address::_16Bit(_, _) => 16,
            Address::_24Bit(_, _) => 24,
            Address::_32Bit(_, _) => 32,
        }
    }

    /// Value and lines of the phase, if it is sent.
    pub open spec fn content(self) -> Option<(u32, DataMode)> {
        match self {
            Address::Absent => None,
            Address::_8Bit(value, mode) => Some((value, mode)),
            Address::_16Bit(value, mode) => Some((value, mode)),
            Address::_24Bit(value, mode) => Some((value, mode)),
            Address::_32Bit(value, mode) => Some((value, mode)),
        }
    }
}

/// Peripheral setting for `mode`. The peripheral has no setting without lines:
/// an absent phase runs on a single line.
pub open spec fn data_mode_of(mode: LineMode) -> DataMode {
    match mode {
        LineMode::Dual => DataMode::Dual,
        LineMode::Quad => DataMode::Quad,
        _ => DataMode::Single,
    }
}

/// Command for an instruction phase. Two bytes make a 16-bit command, any other
/// length an 8-bit one; the peripheral's register takes the low half of the value.
pub open spec fn command_of(phase: Option<PhaseConfig>) -> Command {
    match phase {
        None => Command::Absent,
        Some(p) => {
            let low = (p.value as nat % 0x1_0000) as u16;
            if p.bytes_len == 2 {
                Command::_16Bit(low, data_mode_of(p.mode))
            } else {
                Command::_8Bit(low, data_mode_of(p.mode))
            }
        },
    }
}

/// Address for an address phase: one, two, three or four bytes, and three where
/// the length is none of these.
pub open spec fn address_of(phase: Option<PhaseConfig>) -> Address {
    match phase {
        None => Address::Absent,
        Some(p) => if p.bytes_len == 1 {
            Address::_8Bit(p.value, data_mode_of(p.mode))
        } else if p.bytes_len == 2 {
            Address::_16Bit(p.value, data_mode_of(p.mode))
        } else if p.bytes_len == 4 {
            Address::_32Bit(p.value, data_mode_of(p.mode))
        } else {
            Address::_24Bit(p.value, data_mode_of(p.mode))
        },
    }
}

/// Request for running `transaction` with `length` bytes of data.
pub open spec fn request_of(transaction: QspiTransaction, length: usize) -> TransferRequest {
    TransferRequest {
        data_mode: data_mode_of(transaction.data_mode),
        command: command_of(transaction.instruction),
        address: address_of(transaction.address),
        dummy_cycles: transaction.dummy_cycles,
        length,
    }
}

/// Peripheral line setting for a phase.
pub fn to_esp_data_mode(mode: LineMode) -> (res: DataMode)
    ensures
        res == data_mode_of(mode),
        res is Dual <==> mode is Dual,
        res is Quad <==> mode is Quad,
        res is Single <==> (mode is Single || mode is Absent),
{
    match mode {
        LineMode::Absent | LineMode::Single => DataMode::Single,
        LineMode::Dual => DataMode::Dual,
        LineMode::Quad => DataMode::Quad,
    }
}

/// Command for an instruction phase.
pub fn to_esp_command(phase: &Option<PhaseConfig>) -> (res: Command)
    ensures
        res == command_of(*phase),
        res is Absent <==> *phase is None,
        *phase matches Some(p) ==> {
            &&& res is _16Bit <==> p.bytes_len == 2
            &&& res is _8Bit <==> p.bytes_len != 2
            &&& res matches Command::_8Bit(value, mode) ==> value == p.value % 0x1_0000 && mode
                == data_mode_of(p.mode)
            &&& res matches Command::_16Bit(value, mode) ==> value == p.value % 0x1_0000 && mode
                == data_mode_of(p.mode)
        },
{
    match phase {
        None => Command::Absent,
        Some(cfg) => {
            let mode = to_esp_data_mode(cfg.mode);
            let value: u32 = cfg.value;
            let low: u16 = #[verifier::truncate] (value as u16);
            assert(low == value % 0x1_0000) by (bit_vector)
                requires
                    low == value as u16,
            ;
            match cfg.bytes_len {
                1 => Command::_8Bit(low, mode),
                2 => Command::_16Bit(low, mode),
                _ => Command::_8Bit(low, mode),
            }
        },
    }
}

/// Address for an address phase.
pub fn to_esp_address(phase: &Option<PhaseConfig>) -> (res: Address)
    ensures
        res == address_of(*phase),
        res is Absent <==> *phase is None,
        *phase matches Some(p) ==> {
            &&& res is _8Bit <==> p.bytes_len == 1
            &&& res is _16Bit <==> p.bytes_len == 2
            &&& res is _24Bit <==> p.bytes_len == 3 || p.bytes_len == 0 || p.bytes_len > 4
            &&& res is _32Bit <==> p.bytes_len == 4
            &&& res matches Address::_8Bit(value, mode) ==> value == p.value && mode
                == data_mode_of(p.mode)
            &&& res matches Address::_16Bit(value, mode) ==> value == p.value && mode
                == data_mode_of(p.mode)
            &&& res matches Address::_24Bit(value, mode) ==> value == p.value && mode
                == data_mode_of(p.mode)
            &&& res matches Address::_32Bit(value, mode) ==> value == p.value && mode
                == data_mode_of(p.mode)
        },
{
    match phase {
        None => Address::Absent,
        Some(cfg) => {
            let mode = to_esp_data_mode(cfg.mode);
            match cfg.bytes_len {
                1 => Address::_8Bit(cfg.value, mode),
                2 => Address::_16Bit(cfg.value, mode),
                3 => Address::_24Bit(cfg.value, mode),
                4 => Address::_32Bit(cfg.value, mode),
                _ => Address::_24Bit(cfg.value, mode),
            }
        },
    }
}

impl TransferRequest {
    /// Request for running `transaction` with `length` bytes of data.
    pub fn new(transaction: &QspiTransaction, length: usize) -> (res: Self)
        ensures
            res == request_of(*transaction, length),
            res.length == length,
            res.dummy_cycles == transaction.dummy_cycles,
            res.data_mode == data_mode_of(transaction.data_mode),
            res.command == command_of(transaction.instruction),
            res.address == address_of(transaction.address),
    {
        TransferRequest {
            data_mode: to_esp_data_mode(transaction.data_mode),
            command: to_esp_command(&transaction.instruction),
            address: to_esp_address(&transaction.address),
            dummy_cycles: transaction.dummy_cycles,
            length,
        }
    }
}

} // verus!
