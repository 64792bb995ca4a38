//! What holds of transfers as a whole, over the specifications of their steps.
use vstd::prelude::*;

use crate::device::{answer_to, sent, staged, DeviceView, EspHalQspiDevice, SpiError};
use crate::memory::{can_start_at, in_dram, kind_at, kind_of, DmaOperationKind};
use crate::transaction::{
    address_of, command_of, data_mode_of, request_of, Address, Command, DataMode, LineMode,
    PhaseConfig, QspiTransaction,
};

verus! {

/// A write sends exactly its payload, wherever the payload lies, and staging it
/// changes nothing in the bounce buffer behind the payload, nor its length.
pub proof fn law_write_sends_the_payload(kind: DmaOperationKind, data: Seq<u8>, bounce: Seq<u8>)
    requires
        kind is Copied ==> data.len() <= bounce.len(),
    ensures
        sent(kind, data, staged(kind, data, bounce)) == data,
        staged(kind, data, bounce).len() == bounce.len(),
        forall|i: int|
            data.len() <= i < bounce.len() ==> #[trigger] staged(kind, data, bounce)[i]
                == bounce[i],
{
    assert(sent(kind, data, staged(kind, data, bounce)) =~= data);
}

/// Staging a payload that is copied puts it, byte for byte, at the front of the
/// bounce buffer, whatever its length and whatever was there, and keeps what
/// stands behind it; staging one that is sent in place changes nothing.
pub proof fn law_staging_fills_the_front(kind: DmaOperationKind, data: Seq<u8>, bounce: Seq<u8>)
    requires
        kind is Copied ==> data.len() <= bounce.len(),
    ensures
        kind is InPlace ==> staged(kind, data, bounce) == bounce,
        kind is Copied ==> {
            &&& staged(kind, data, bounce).len() == bounce.len()
            &&& staged(kind, data, bounce).take(data.len() as int) == data
            &&& staged(kind, data, bounce).skip(data.len() as int) == bounce.skip(
                data.len() as int,
            )
        },
{
    if kind is Copied {
        assert(staged(kind, data, bounce).take(data.len() as int) =~= data);
        assert(staged(kind, data, bounce).skip(data.len() as int) =~= bounce.skip(
            data.len() as int,
        ));
    }
}

/// The DMA engine sends a copied payload from the front of the bounce buffer,
/// whatever is there, and never from the payload; it sends a payload that goes in
/// place from the payload, and never from the bounce buffer.
pub proof fn law_bytes_come_from_one_place(
    kind: DmaOperationKind,
    data: Seq<u8>,
    other: Seq<u8>,
    bounce: Seq<u8>,
    other_bounce: Seq<u8>,
)
    requires
        data.len() == other.len(),
        kind is Copied ==> data.len() <= bounce.len(),
    ensures
        sent(kind, data, bounce).len() == data.len(),
        kind is Copied ==> sent(kind, data, bounce) == bounce.take(data.len() as int),
        kind is Copied ==> sent(kind, data, bounce) == sent(kind, other, bounce),
        kind is InPlace ==> sent(kind, data, bounce) == data,
        kind is InPlace ==> sent(kind, data, bounce) == sent(kind, data, other_bounce),
{
}

/// A payload is sent from where it is exactly when it starts in the internal data
/// RAM, and copied otherwise.
pub proof fn law_only_payloads_in_dram_go_in_place(address: int)
    ensures
        kind_at(address) is InPlace <==> 0x3FC0_0000 <= address < 0x4000_0000,
        kind_at(address) is Copied <==> !in_dram(address),
        in_dram(address) <==> 0x3FC0_0000 <= address < 0x4000_0000,
        kind_of(in_dram(address)) is InPlace <==> 0x3FC0_0000 <= address < 0x4000_0000,
{
}

/// The placement alone makes the kind.
pub proof fn law_placement_makes_the_kind(placed_in_dram: bool)
    ensures
        kind_of(placed_in_dram) is InPlace <==> placed_in_dram,
        kind_of(placed_in_dram) is Copied <==> !placed_in_dram,
{
}

/// A slice can start at every address but null from which it does not run past
/// the end of the address space, and at no other.
pub proof fn law_slices_fit_the_address_space(len: nat, address: usize)
    ensures
        can_start_at(len, address) <==> address != 0 && len <= usize::MAX - address,
{
}

/// What is said of a device is said of its fields: the handles themselves, and the
/// bytes that its bounce buffer holds.
pub proof fn law_the_view_shows_every_field<Spi, RxBuf, Descriptors>(
    device: EspHalQspiDevice<'_, Spi, RxBuf, Descriptors>,
)
    ensures
        device@.spi == device.spi,
        device@.rx_buf == device.rx_buf,
        device@.tx_descriptors == device.tx_descriptors,
        device@.bounce_buf is Some <==> device.bounce_buf is Some,
        device.bounce_buf is Some ==> device@.bounce_buf->0 == device.bounce_buf->0@,
{
}

/// A write needs the peripheral, the descriptors and the bounce buffer, a read the
/// peripheral and the receive buffer, and neither anything else. A payload that is
/// copied has room exactly if the bounce buffer is at least as long.
pub proof fn law_what_a_transfer_needs<Spi, RxBuf, Descriptors>(
    device: DeviceView<Spi, RxBuf, Descriptors>,
    len: nat,
)
    ensures
        device.can_write() <==> device.spi is Some && device.tx_descriptors is Some
            && device.bounce_buf is Some,
        device.can_read() <==> device.spi is Some && device.rx_buf is Some,
        device.bounce_buf is Some ==> (device.has_room_for(len) <==> len
            <= device.bounce_buf->0.len()),
        device.bounce_buf is None ==> !device.has_room_for(len),
{
}

/// A transfer takes out what it needs and leaves the rest.
pub proof fn law_a_transfer_takes_what_it_needs<Spi, RxBuf, Descriptors>(
    device: DeviceView<Spi, RxBuf, Descriptors>,
)
    ensures
        device.lent_for_write().spi is None,
        device.lent_for_write().tx_descriptors is None,
        device.lent_for_write().bounce_buf is None,
        device.lent_for_write().rx_buf == device.rx_buf,
        device.lent_for_read().spi is None,
        device.lent_for_read().rx_buf is None,
        device.lent_for_read().tx_descriptors == device.tx_descriptors,
        device.lent_for_read().bounce_buf == device.bounce_buf,
{
}

/// A device takes back the very handles that a transfer which has run hands it,
/// and keeps what was not on that transfer; it takes back nothing of a transfer
/// that the peripheral did not accept.
pub proof fn law_a_device_takes_back_what_it_is_handed<Spi, RxBuf, Descriptors, E>(
    device: DeviceView<Spi, RxBuf, Descriptors>,
    spi: Spi,
    rx_buf: RxBuf,
    tx_descriptors: Descriptors,
    bounce: Seq<u8>,
    reason: E,
)
    ensures
        ({
            let back = device.after_write(Ok::<_, E>((spi, tx_descriptors)), bounce);
            &&& back.spi == Some(spi)
            &&& back.tx_descriptors == Some(tx_descriptors)
            &&& back.bounce_buf == Some(bounce)
            &&& back.rx_buf == device.rx_buf
        }),
        ({
            let back = device.after_read(Ok::<_, E>((spi, rx_buf)));
            &&& back.spi == Some(spi)
            &&& back.rx_buf == Some(rx_buf)
            &&& back.tx_descriptors == device.tx_descriptors
            &&& back.bounce_buf == device.bounce_buf
        }),
        device.after_write(Err::<(Spi, Descriptors), E>(reason), bounce) == device,
        device.after_read(Err::<(Spi, RxBuf), E>(reason)) == device,
{
}

/// A transfer is answered with success exactly if it has run, and as unsupported
/// exactly if not.
pub proof fn law_the_answer_follows_the_outcome<T, E>(outcome: Result<T, E>)
    ensures
        answer_to(outcome) is Ok <==> outcome is Ok,
        answer_to(outcome) == Err::<(), SpiError>(SpiError::Unsupported) <==> outcome is Err,
{
}

/// A write that has run gives the device back every handle that it took out, and
/// leaves the receive buffer alone. Of the device, only the bytes in the bounce
/// buffer can differ, and only if the payload was copied; so whatever the device
/// could do before, it can do again.
pub proof fn law_write_restores_the_device<Spi, RxBuf, Descriptors, E>(
    device: DeviceView<Spi, RxBuf, Descriptors>,
    kind: DmaOperationKind,
    data: Seq<u8>,
)
    requires
        device.can_write(),
        kind is Copied ==> device.has_room_for(data.len()),
    ensures
        ({
            let bounce = staged(kind, data, device.bounce_buf->0);
            let outcome = Ok::<(Spi, Descriptors), E>((device.spi->0, device.tx_descriptors->0));
            let back = device.lent_for_write().after_write(outcome, bounce);
            &&& answer_to(outcome) == Ok::<(), SpiError>(())
            &&& back == (DeviceView { bounce_buf: Some(bounce), ..device })
            &&& kind is InPlace ==> back == device
            &&& back.can_write()
            &&& back.can_read() == device.can_read()
            &&& forall|len: nat| #[trigger] back.has_room_for(len) == device.has_room_for(len)
        }),
{
    let bounce = staged(kind, data, device.bounce_buf->0);
    assert(bounce.len() == device.bounce_buf->0.len());
}

/// A read that has run leaves the device as it was.
pub proof fn law_read_restores_the_device<Spi, RxBuf, Descriptors, E>(
    device: DeviceView<Spi, RxBuf, Descriptors>,
)
    requires
        device.can_read(),
    ensures
        ({
            let outcome = Ok::<(Spi, RxBuf), E>((device.spi->0, device.rx_buf->0));
            &&& answer_to(outcome) == Ok::<(), SpiError>(())
            &&& device.lent_for_read().after_read(outcome) == device
        }),
{
}

/// While a transfer is out, no other can begin: neither a write nor a read.
pub proof fn law_one_transfer_at_a_time<Spi, RxBuf, Descriptors>(
    device: DeviceView<Spi, RxBuf, Descriptors>,
)
    ensures
        !device.lent_for_write().can_write(),
        !device.lent_for_write().can_read(),
        !device.lent_for_read().can_write(),
        !device.lent_for_read().can_read(),
{
}

/// A write that the peripheral did not accept is answered as unsupported, for
/// whatever reason, and its handles are gone: no further transfer can begin. The
/// receive buffer stays.
pub proof fn law_refused_write_disables_the_device<Spi, RxBuf, Descriptors, E>(
    device: DeviceView<Spi, RxBuf, Descriptors>,
    reason: E,
    bounce: Seq<u8>,
)
    ensures
        ({
            let outcome = Err::<(Spi, Descriptors), E>(reason);
            let left = device.lent_for_write().after_write(outcome, bounce);
            &&& answer_to(outcome) == Err::<(), SpiError>(SpiError::Unsupported)
            &&& !left.can_write()
            &&& !left.can_read()
            &&& left.rx_buf == device.rx_buf
        }),
{
}

/// A read that the peripheral did not accept is answered as unsupported, for
/// whatever reason, and its handles are gone: no further transfer can begin. The
/// descriptors and the bounce buffer stay.
pub proof fn law_refused_read_disables_the_device<Spi, RxBuf, Descriptors, E>(
    device: DeviceView<Spi, RxBuf, Descriptors>,
    reason: E,
)
    ensures
        ({
            let outcome = Err::<(Spi, RxBuf), E>(reason);
            let left = device.lent_for_read().after_read(outcome);
            &&& answer_to(outcome) == Err::<(), SpiError>(SpiError::Unsupported)
            &&& !left.can_write()
            &&& !left.can_read()
            &&& left.tx_descriptors == device.tx_descriptors
            &&& left.bounce_buf == device.bounce_buf
        }),
{
}

/// A phase that is present keeps its number of lines; one that is not is set to
/// a single line.
pub proof fn law_lines_are_kept(mode: LineMode)
    ensures
        data_mode_of(mode).lines() == if mode is Absent {
            1
        } else {
            mode.lines()
        },
        data_mode_of(mode) is Dual <==> mode is Dual,
        data_mode_of(mode) is Quad <==> mode is Quad,
        data_mode_of(mode) is Single <==> mode is Single || mode is Absent,
{
}

/// A mode has as many lines as its name says.
pub proof fn law_modes_count_lines(mode: LineMode, setting: DataMode)
    ensures
        mode is Absent <==> mode.lines() == 0,
        mode is Single <==> mode.lines() == 1,
        mode is Dual <==> mode.lines() == 2,
        mode is Quad <==> mode.lines() == 4,
        setting is Single <==> setting.lines() == 1,
        setting is Dual <==> setting.lines() == 2,
        setting is Quad <==> setting.lines() == 4,
{
}

/// The command and the address are sent exactly when the transaction has the
/// phase.
pub proof fn law_phases_are_sent_iff_present(phase: Option<PhaseConfig>)
    ensures
        command_of(phase) is Absent <==> phase is None,
        address_of(phase) is Absent <==> phase is None,
{
}

/// A phase of the peripheral is as wide as its name says, and holds the value and
/// the lines that it was given.
pub proof fn law_phases_hold_what_they_say(command: Command, address: Address)
    ensures
        match command {
            Command::Absent => command.width() == 0 && command.content() is None,
            Command::_8Bit(v, m) => command.width() == 8 && command.content() == Some((v, m)),
            Command::_16Bit(v, m) => command.width() == 16 && command.content() == Some((v, m)),
        },
        match address {
            Address::Absent => address.width() == 0 && address.content() is None,
            Address::_8Bit(v, m) => address.width() == 8 && address.content() == Some((v, m)),
            Address::_16Bit(v, m) => address.width() == 16 && address.content() == Some((v, m)),
            Address::_24Bit(v, m) => address.width() == 24 && address.content() == Some((v, m)),
            Address::_32Bit(v, m) => address.width() == 32 && address.content() == Some((v, m)),
        },
{
}

/// The command is as wide as the phase asks for, if the peripheral has that
/// width, and 8 bits wide if not. It goes out on the lines of the phase, and it
/// is the low half of the value of the phase: all of it, if it fits the command
/// register.
pub proof fn law_command_follows_the_phase(phase: PhaseConfig)
    ensures
        ({
            let command = command_of(Some(phase));
            &&& command.width() == if 1 <= phase.bytes_len <= 2 {
                8 * phase.bytes_len as nat
            } else {
                8
            }
            &&& command.content() matches Some((value, mode))
            &&& mode == data_mode_of(phase.mode)
            &&& value == phase.value <==> phase.value <= u16::MAX
            &&& (phase.value - value) % 0x1_0000 == 0
        }),
        command_of(Some(phase)) is _16Bit <==> phase.bytes_len == 2,
        command_of(Some(phase)) is _8Bit <==> phase.bytes_len != 2,
{
}

/// The address is as wide as the phase asks for, if the peripheral has that
/// width, and 24 bits wide if not. It goes out on the lines of the phase, and it
/// is the value of the phase.
pub proof fn law_address_follows_the_phase(phase: PhaseConfig)
    ensures
        ({
            let address = address_of(Some(phase));
            &&& address.width() == if 1 <= phase.bytes_len <= 4 {
                8 * phase.bytes_len as nat
            } else {
                24
            }
            &&& address.content() == Some((phase.value, data_mode_of(phase.mode)))
        }),
        address_of(Some(phase)) is _8Bit <==> phase.bytes_len == 1,
        address_of(Some(phase)) is _16Bit <==> phase.bytes_len == 2,
        address_of(Some(phase)) is _32Bit <==> phase.bytes_len == 4,
{
}

/// A request asks for exactly the given number of bytes, on the lines of the data
/// phase, after the dummy cycles of the transaction. It sends a command exactly if
/// the transaction has an instruction and an address exactly if it has an address,
/// each with the width, the value and the lines of its phase.
pub proof fn law_request_follows_the_transaction(transaction: QspiTransaction, length: usize)
    ensures
        ({
            let request = request_of(transaction, length);
            &&& request.length == length
            &&& request.dummy_cycles == transaction.dummy_cycles
            &&& request.data_mode.lines() == if transaction.data_mode is Absent {
                1
            } else {
                transaction.data_mode.lines()
            }
            &&& request.command is Absent <==> transaction.instruction is None
            &&& transaction.instruction matches Some(p) ==> {
                &&& request.command.width() == if p.bytes_len == 2 {
                    16nat
                } else {
                    8nat
                }
                &&& request.command.content() matches Some((value, mode))
                &&& (p.value - value) % 0x1_0000 == 0
                &&& mode.lines() == if p.mode is Absent {
                    1
                } else {
                    p.mode.lines()
                }
            }
            &&& request.address is Absent <==> transaction.address is None
            &&& transaction.address matches Some(p) ==> {
                &&& request.address.width() == if 1 <= p.bytes_len <= 4 {
                    8 * p.bytes_len as nat
                } else {
                    24
                }
                &&& request.address.content() matches Some((value, mode))
                &&& value == p.value
                &&& mode.lines() == if p.mode is Absent {
                    1
                } else {
                    p.mode.lines()
                }
            }
        }),
{
}

/// Each part of a request depends on its own part of the transaction alone: two
/// transactions that agree on a phase ask the peripheral for the same, however
/// they differ elsewhere and however many bytes they move.
pub proof fn law_parts_of_a_request_are_independent(
    one: QspiTransaction,
    other: QspiTransaction,
    length: usize,
    other_length: usize,
)
    ensures
        one.instruction == other.instruction ==> request_of(one, length).command == request_of(
            other,
            other_length,
        ).command,
        one.address == other.address ==> request_of(one, length).address == request_of(
            other,
            other_length,
        ).address,
        one.data_mode == other.data_mode ==> request_of(one, length).data_mode == request_of(
            other,
            other_length,
        ).data_mode,
        one.dummy_cycles == other.dummy_cycles <==> request_of(one, length).dummy_cycles
            == request_of(other, other_length).dummy_cycles,
        length == other_length <==> request_of(one, length).length == request_of(
            other,
            other_length,
        ).length,
{
}

} // verus!
