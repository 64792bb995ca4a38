//! The QSPI device: its handles, and the steps of a write and of a read.
use vstd::prelude::*;

use crate::memory::{address_of_slice, kind_at, may_lie_at, DmaOperationKind};
use crate::transaction::{
    address_of, command_of, data_mode_of, request_of, QspiTransaction, TransferRequest,
};

verus! {

/// A QSPI device made of an SPI peripheral with DMA and the memory that its
/// transfers need.
///
/// A handle that is out on a transfer is `None` here.
pub struct EspHalQspiDevice<'b, Spi, RxBuf, Descriptors> {
    /// The SPI peripheral.
    pub spi: Option<Spi>,
    /// The buffer that reads arrive in.
    pub rx_buf: Option<RxBuf>,
    /// The DMA descriptors of writes.
    pub tx_descriptors: Option<Descriptors>,
    /// Memory within reach of the DMA engine, for payloads that are not.
    pub bounce_buf: Option<&'b mut [u8]>,
}

/// A write that is ready to run, with the handles it needs.
pub struct WriteTransfer<'b, Spi, Descriptors> {
    /// The SPI peripheral.
    pub spi: Spi,
    /// The DMA descriptors.
    pub tx_descriptors: Descriptors,
    /// The bounce buffer.
    pub bounce_buf: &'b mut [u8],
    /// Where the bytes are sent from.
    pub kind: DmaOperationKind,
    /// What the SPI peripheral is asked to do.
    pub request: TransferRequest,
}

/// A read that is ready to run, with the handles it needs.
pub struct ReadTransfer<Spi, RxBuf> {
    /// The SPI peripheral.
    pub spi: Spi,
    /// The buffer that the data arrives in.
    pub rx_buf: RxBuf,
    /// What the SPI peripheral is asked to do.
    pub request: TransferRequest,
}

/// Why a transfer failed.
#[derive(Clone, Copy, Debug, PartialEq, Eq)]
pub enum SpiError {
    /// The SPI peripheral did not accept the transfer.
    Unsupported,
}

/// A payload that has to be copied is longer than the bounce buffer.
#[derive(Clone, Copy, Debug, PartialEq, Eq)]
pub struct BounceBufferTooSmall {
    /// Length of the payload.
    pub data_len: usize,
    /// Length of the bounce buffer.
    pub capacity: usize,
}

/// What a device holds: its handles, and the bytes in its bounce buffer.
#[verifier::ext_equal]
pub struct DeviceView<Spi, RxBuf, Descriptors> {
    /// The SPI peripheral.
    pub spi: Option<Spi>,
    /// The buffer that reads arrive in.
    pub rx_buf: Option<RxBuf>,
    /// The DMA descriptors of writes.
    pub tx_descriptors: Option<Descriptors>,
    /// The bytes in the bounce buffer.
    pub bounce_buf: Option<Seq<u8>>,
}

impl<'b, Spi, RxBuf, Descriptors> View for EspHalQspiDevice<'b, Spi, RxBuf, Descriptors> {
    type V = DeviceView<Spi, RxBuf, Descriptors>;

    open spec fn view(&self) -> DeviceView<Spi, RxBuf, Descriptors> {
        DeviceView {
            spi: self.spi,
            rx_buf: self.rx_buf,
            tx_descriptors: self.tx_descriptors,
            bounce_buf: match self.bounce_buf {
                Some(bounce) => Some(bounce@),
                None => None,
            },
        }
    }
}

impl<Spi, RxBuf, Descriptors> DeviceView<Spi, RxBuf, Descriptors> {
    /// Whether everything that a write needs is here.
    pub open spec fn can_write(self) -> bool {
        &&& self.spi is Some
        &&& self.tx_descriptors is Some
        &&& self.bounce_buf is Some
    }

    /// Whether everything that a read needs is here.
    pub open spec fn can_read(self) -> bool {
        &&& self.spi is Some
        &&& self.rx_buf is Some
    }

    /// Whether a payload of `len` bytes that has to be copied has room.
    pub open spec fn has_room_for(self, len: nat) -> bool {
        self.bounce_buf is Some && len <= self.bounce_buf->0.len()
    }

    /// The device while a write is out.
    pub open spec fn lent_for_write(self) -> Self {
        DeviceView { spi: None, tx_descriptors: None, bounce_buf: None, ..self }
    }

    /// The device while a read is out.
    pub open spec fn lent_for_read(self) -> Self {
        DeviceView { spi: None, rx_buf: None, ..self }
    }

    /// The device once a write has come back. Nothing comes back from a transfer
    /// that the peripheral did not accept.
    pub open spec fn after_write<E>(
        self,
        outcome: Result<(Spi, Descriptors), E>,
        bounce_buf: Seq<u8>,
    ) -> Self {
        match outcome {
            Ok((spi, tx_descriptors)) => DeviceView {
                spi: Some(spi),
                tx_descriptors: Some(tx_descriptors),
                bounce_buf: Some(bounce_buf),
                ..self
            },
            Err(_) => self,
        }
    }

    /// The device once a read has come back. Nothing comes back from a transfer
    /// that the peripheral did not accept.
    pub open spec fn after_read<E>(self, outcome: Result<(Spi, RxBuf), E>) -> Self {
        match outcome {
            Ok((spi, rx_buf)) => DeviceView { spi: Some(spi), rx_buf: Some(rx_buf), ..self },
            Err(_) => self,
        }
    }
}

/// What the caller is told of a transfer: a transfer that the peripheral did not
/// accept is unsupported, whatever the reason.
pub open spec fn answer_to<T, E>(outcome: Result<T, E>) -> Result<(), SpiError> {
    match outcome {
        Ok(_) => Ok(()),
        Err(_) => Err(SpiError::Unsupported),
    }
}

/// The bounce buffer, which held `bounce`, when a write of `data` starts.
pub open spec fn staged(kind: DmaOperationKind, data: Seq<u8>, bounce: Seq<u8>) -> Seq<u8> {
    match kind {
        DmaOperationKind::InPlace => bounce,
        DmaOperationKind::Copied => data + bounce.skip(data.len() as int),
    }
}

/// The bytes that the DMA engine sends in a write of `data` that staged `bounce`.
pub open spec fn sent(kind: DmaOperationKind, data: Seq<u8>, bounce: Seq<u8>) -> Seq<u8> {
    match kind {
        DmaOperationKind::InPlace => data,
        DmaOperationKind::Copied => bounce.take(data.len() as int),
    }
}

/// Copies `src` to the front of `dst` and leaves the rest of `dst` as it is.
pub fn copy_to_front(src: &[u8], dst: &mut [u8])
    requires
        src@.len() <= old(dst)@.len(),
    ensures
        final(dst)@ == src@ + old(dst)@.skip(src@.len() as int),
{
    let mut i: usize = 0;
    while i < src.len()
        invariant
            i <= src@.len() <= old(dst)@.len(),
            dst@ == src@.take(i as int) + old(dst)@.skip(i as int),
        decreases src@.len() - i,
    {
        dst[i] = src[i];
        i = i + 1;
    }
}

/// Fills `buffer` with the first bytes of `received`.
pub fn fill_from(received: &[u8], buffer: &mut [u8])
    requires
        old(buffer)@.len() <= received@.len(),
    ensures
        final(buffer)@ == received@.take(old(buffer)@.len() as int),
{
    let front = vstd::slice::slice_subrange(received, 0, buffer.len());
    copy_to_front(front, buffer);
}

impl<'b, Spi, Descriptors> WriteTransfer<'b, Spi, Descriptors> {
    /// The bytes that the DMA engine is to send in this write of `data`: `data`
    /// itself, or the front of the bounce buffer.
    pub fn payload<'a>(&'a self, data: &'a [u8]) -> (res: &'a [u8])
        requires
            self.kind is Copied ==> data@.len() <= old(self.bounce_buf)@.len(),
        ensures
            res@ == sent(self.kind, data@, old(self.bounce_buf)@),
            self.kind is InPlace ==> res@ == data@,
            self.kind is Copied ==> res@ == old(self.bounce_buf)@.take(data@.len() as int),
    {
        match self.kind {
            DmaOperationKind::InPlace => data,
            DmaOperationKind::Copied => vstd::slice::slice_subrange(
                self.bounce_buf,
                0,
                data.len(),
            ),
        }
    }
}

impl<'b, Spi, RxBuf, Descriptors> EspHalQspiDevice<'b, Spi, RxBuf, Descriptors> {
    /// Takes out what a write of `data` needs, and stages `data` as `kind` says.
    ///
    /// Fails, and takes nothing out, when `data` has to be copied and the bounce
    /// buffer is too short.
    pub fn begin_write_as(
        &mut self,
        transaction: &QspiTransaction,
        data: &[u8],
        kind: DmaOperationKind,
    ) -> (res: Result<WriteTransfer<'b, Spi, Descriptors>, BounceBufferTooSmall>)
        requires
            old(self)@.can_write(),
        ensures
            res is Ok <==> (kind is InPlace || old(self)@.has_room_for(data@.len())),
            res is Ok <==> (kind is InPlace || data@.len() <= old(self).bounce_buf->0@.len()),
            res matches Ok(transfer) ==> {
                &&& final(self).spi is None
                &&& final(self).tx_descriptors is None
                &&& final(self).bounce_buf is None
                &&& final(self).rx_buf == old(self).rx_buf
                &&& old(self).spi == Some(transfer.spi)
                &&& old(self).tx_descriptors == Some(transfer.tx_descriptors)
                &&& transfer.bounce_buf@.len() == old(self).bounce_buf->0@.len()
                &&& transfer.kind is InPlace ==> transfer.bounce_buf@
                    == old(self).bounce_buf->0@
                &&& transfer.kind is Copied ==> {
                    &&& transfer.bounce_buf@.take(data@.len() as int) == data@
                    &&& transfer.bounce_buf@.skip(data@.len() as int)
                        == old(self).bounce_buf->0@.skip(data@.len() as int)
                }
                &&& transfer.request.length == data@.len()
                &&& transfer.request.dummy_cycles == transaction.dummy_cycles
                &&& transfer.request.data_mode == data_mode_of(transaction.data_mode)
                &&& transfer.request.command == command_of(transaction.instruction)
                &&& transfer.request.address == address_of(transaction.address)
                &&& final(self)@ == old(self)@.lent_for_write()
                &&& old(self)@.spi == Some(transfer.spi)
                &&& old(self)@.tx_descriptors == Some(transfer.tx_descriptors)
                &&& transfer.bounce_buf@ == staged(kind, data@, old(self)@.bounce_buf->0)
                &&& final(transfer.bounce_buf)@ == final(old(self).bounce_buf->0)@
                &&& transfer.kind == kind
                &&& transfer.request == request_of(*transaction, data.len())
                &&& sent(kind, data@, transfer.bounce_buf@) == data@
            },
            res matches Err(e) ==> {
                &&& *final(self) == *old(self)
                &&& e.data_len == data@.len()
                &&& e.capacity == old(self).bounce_buf->0@.len()
                &&& e.capacity == old(self)@.bounce_buf->0.len()
            },
    {
        match (kind, &self.bounce_buf) {
            (DmaOperationKind::Copied, Some(bounce)) => {
                let capacity: usize = bounce.len();
                if data.len() > capacity {
                    return Err(BounceBufferTooSmall { data_len: data.len(), capacity });
                }
            },
            _ => {},
        }
        let request = TransferRequest::new(transaction, data.len());
        let tx_descriptors = self.tx_descriptors.take().unwrap();
        let bounce_buf = self.bounce_buf.take().unwrap();
        match kind {
            DmaOperationKind::InPlace => {},
            DmaOperationKind::Copied => {
                copy_to_front(data, bounce_buf);
            },
        }
        let spi = self.spi.take().unwrap();
        Ok(WriteTransfer { spi, tx_descriptors, bounce_buf, kind, request })
    }

    /// Takes out what a write of `data` needs, where `data` starts at `address`,
    /// and stages `data`: it is sent from where it is if that is in the internal
    /// data RAM, and copied if not.
    ///
    /// Fails, and takes nothing out, when `data` has to be copied and the bounce
    /// buffer is too short.
    pub fn begin_write_at(
        &mut self,
        transaction: &QspiTransaction,
        data: &[u8],
        address: usize,
    ) -> (res: Result<WriteTransfer<'b, Spi, Descriptors>, BounceBufferTooSmall>)
        requires
            old(self)@.can_write(),
        ensures
            res is Ok <==> (kind_at(address as int) is InPlace || old(self)@.has_room_for(
                data@.len(),
            )),
            res is Ok <==> (0x3FC0_0000 <= address < 0x4000_0000 || data@.len() <= old(
                self,
            ).bounce_buf->0@.len()),
            res is Ok ==> (res->Ok_0.kind is InPlace <==> 0x3FC0_0000 <= address < 0x4000_0000),
            res matches Ok(transfer) ==> {
                &&& final(self).spi is None
                &&& final(self).tx_descriptors is None
                &&& final(self).bounce_buf is None
                &&& final(self).rx_buf == old(self).rx_buf
                &&& old(self).spi == Some(transfer.spi)
                &&& old(self).tx_descriptors == Some(transfer.tx_descriptors)
                &&& transfer.bounce_buf@.len() == old(self).bounce_buf->0@.len()
                &&& transfer.kind is InPlace ==> transfer.bounce_buf@
                    == old(self).bounce_buf->0@
                &&& transfer.kind is Copied ==> {
                    &&& transfer.bounce_buf@.take(data@.len() as int) == data@
                    &&& transfer.bounce_buf@.skip(data@.len() as int)
                        == old(self).bounce_buf->0@.skip(data@.len() as int)
                }
                &&& transfer.request.length == data@.len()
                &&& transfer.request.dummy_cycles == transaction.dummy_cycles
                &&& transfer.request.data_mode == data_mode_of(transaction.data_mode)
                &&& transfer.request.command == command_of(transaction.instruction)
                &&& transfer.request.address == address_of(transaction.address)
                &&& final(self)@ == old(self)@.lent_for_write()
                &&& old(self)@.spi == Some(transfer.spi)
                &&& old(self)@.tx_descriptors == Some(transfer.tx_descriptors)
                &&& transfer.bounce_buf@ == staged(
                    kind_at(address as int),
                    data@,
                    old(self)@.bounce_buf->0,
                )
                &&& final(transfer.bounce_buf)@ == final(old(self).bounce_buf->0)@
                &&& transfer.kind == kind_at(address as int)
                &&& transfer.request == request_of(*transaction, data.len())
                &&& sent(transfer.kind, data@, transfer.bounce_buf@) == data@
            },
            res matches Err(e) ==> {
                &&& *final(self) == *old(self)
                &&& e.data_len == data@.len()
                &&& e.capacity == old(self).bounce_buf->0@.len()
                &&& e.capacity == old(self)@.bounce_buf->0.len()
            },
    {
        let kind = DmaOperationKind::for_address(address);
        self.begin_write_as(transaction, data, kind)
    }

    /// Takes out what a write of `data` needs, and stages `data`.
    ///
    /// This is [`Self::begin_write_at`] for the address at which the program
    /// placed `data`.
    pub fn begin_write(&mut self, transaction: &QspiTransaction, data: &[u8]) -> (res: Result<
        WriteTransfer<'b, Spi, Descriptors>,
        BounceBufferTooSmall,
    >)
        requires
            old(self)@.can_write(),
        ensures
            old(self)@.has_room_for(data@.len()) ==> res is Ok,
            data@.len() <= old(self).bounce_buf->0@.len() ==> res is Ok,
            exists|address: usize| #[trigger]
                may_lie_at(data, address) && (res is Ok <==> (kind_at(
                    address as int,
                ) is InPlace || old(self)@.has_room_for(data@.len()))) && (res is Ok <==> (
                0x3FC0_0000 <= address < 0x4000_0000 || data@.len() <= old(
                    self,
                ).bounce_buf->0@.len())) && (res is Ok ==> res->Ok_0.kind == kind_at(
                    address as int,
                )) && (res is Ok ==> (res->Ok_0.kind is InPlace <==> 0x3FC0_0000 <= address
                    < 0x4000_0000)),
            res matches Ok(transfer) ==> {
                &&& final(self).spi is None
                &&& final(self).tx_descriptors is None
                &&& final(self).bounce_buf is None
                &&& final(self).rx_buf == old(self).rx_buf
                &&& old(self).spi == Some(transfer.spi)
                &&& old(self).tx_descriptors == Some(transfer.tx_descriptors)
                &&& transfer.bounce_buf@.len() == old(self).bounce_buf->0@.len()
                &&& transfer.kind is InPlace ==> transfer.bounce_buf@
                    == old(self).bounce_buf->0@
                &&& transfer.kind is Copied ==> {
                    &&& transfer.bounce_buf@.take(data@.len() as int) == data@
                    &&& transfer.bounce_buf@.skip(data@.len() as int)
                        == old(self).bounce_buf->0@.skip(data@.len() as int)
                }
                &&& transfer.request.length == data@.len()
                &&& transfer.request.dummy_cycles == transaction.dummy_cycles
                &&& transfer.request.data_mode == data_mode_of(transaction.data_mode)
                &&& transfer.request.command == command_of(transaction.instruction)
                &&& transfer.request.address == address_of(transaction.address)
                &&& final(self)@ == old(self)@.lent_for_write()
                &&& old(self)@.spi == Some(transfer.spi)
                &&& old(self)@.tx_descriptors == Some(transfer.tx_descriptors)
                &&& transfer.bounce_buf@ == staged(
                    transfer.kind,
                    data@,
                    old(self)@.bounce_buf->0,
                )
                &&& final(transfer.bounce_buf)@ == final(old(self).bounce_buf->0)@
                &&& transfer.request == request_of(*transaction, data.len())
                &&& sent(transfer.kind, data@, transfer.bounce_buf@) == data@
                &&& transfer.kind is Copied ==> old(self)@.has_room_for(data@.len())
            },
            res matches Err(e) ==> {
                &&& *final(self) == *old(self)
                &&& e.data_len == data@.len()
                &&& e.capacity == old(self).bounce_buf->0@.len()
                &&& e.capacity == old(self)@.bounce_buf->0.len()
                &&& e.data_len > e.capacity
            },
    {
        let address: usize = address_of_slice(data);
        self.begin_write_at(transaction, data, address)
    }

    /// Takes back what a write had taken out. `outcome` holds the handles of a
    /// transfer that has run, or why the peripheral did not accept it; in that
    /// case nothing is taken back.
    pub fn finish_write<E>(
        &mut self,
        outcome: Result<(Spi, Descriptors), E>,
        bounce_buf: &'b mut [u8],
    ) -> (res: Result<(), SpiError>)
        ensures
            res == answer_to(outcome),
            final(self)@ == old(self)@.after_write(outcome, old(bounce_buf)@),
            final(self).rx_buf == old(self).rx_buf,
            outcome matches Ok((spi, tx_descriptors)) ==> {
                &&& res is Ok
                &&& final(self).spi == Some(spi)
                &&& final(self).tx_descriptors == Some(tx_descriptors)
                &&& final(self).bounce_buf is Some
                &&& final(self).bounce_buf->0@ == old(bounce_buf)@
            },
            outcome is Err ==> res == Err::<(), SpiError>(SpiError::Unsupported),
            outcome is Ok ==> final(final(self).bounce_buf->0)@ == final(bounce_buf)@,
            outcome is Err ==> *final(self) == *old(self),
            outcome is Err ==> final(bounce_buf)@ == old(bounce_buf)@,
    {
        match outcome {
            Ok((spi, tx_descriptors)) => {
                self.spi = Some(spi);
                self.tx_descriptors = Some(tx_descriptors);
                self.bounce_buf = Some(bounce_buf);
                Ok(())
            },
            Err(_) => Err(SpiError::Unsupported),
        }
    }

    /// Takes out what a read of `length` bytes needs. Whether the receive buffer
    /// holds that many is for the caller to see to before the transfer starts.
    pub fn begin_read(&mut self, transaction: &QspiTransaction, length: usize) -> (transfer:
        ReadTransfer<Spi, RxBuf>)
        requires
            old(self)@.can_read(),
        ensures
            final(self)@ == old(self)@.lent_for_read(),
            final(self).spi is None,
            final(self).rx_buf is None,
            final(self).tx_descriptors == old(self).tx_descriptors,
            final(self).bounce_buf == old(self).bounce_buf,
            old(self).spi == Some(transfer.spi),
            old(self).rx_buf == Some(transfer.rx_buf),
            transfer.request.length == length,
            transfer.request.dummy_cycles == transaction.dummy_cycles,
            transfer.request.data_mode == data_mode_of(transaction.data_mode),
            transfer.request.command == command_of(transaction.instruction),
            transfer.request.address == address_of(transaction.address),
            old(self)@.spi == Some(transfer.spi),
            old(self)@.rx_buf == Some(transfer.rx_buf),
            transfer.request == request_of(*transaction, length),
    {
        let request = TransferRequest::new(transaction, length);
        let rx_buf = self.rx_buf.take().unwrap();
        let spi = self.spi.take().unwrap();
        ReadTransfer { spi, rx_buf, request }
    }

    /// Takes back what a read had taken out, and fills `buffer` with what has
    /// arrived. `outcome` holds the handles of a transfer that has run, or why the
    /// peripheral did not accept it; in that case nothing is taken back and
    /// `buffer` stays as it is. `received` gives the bytes in the receive buffer.
    pub fn finish_read<E, F: Fn(&RxBuf) -> &[u8]>(
        &mut self,
        outcome: Result<(Spi, RxBuf), E>,
        received: F,
        buffer: &mut [u8],
    ) -> (res: Result<(), SpiError>)
        requires
            outcome matches Ok((_, rx_buf)) ==> {
                &&& call_requires(received, (&rx_buf,))
                &&& forall|bytes: &[u8]| #[trigger]
                    call_ensures(received, (&rx_buf,), bytes) ==> old(buffer)@.len()
                        <= bytes@.len()
            },
        ensures
            res == answer_to(outcome),
            final(self)@ == old(self)@.after_read(outcome),
            final(self).tx_descriptors == old(self).tx_descriptors,
            final(self).bounce_buf == old(self).bounce_buf,
            outcome matches Ok((spi, rx_buf)) ==> {
                &&& res is Ok
                &&& final(self).spi == Some(spi)
                &&& final(self).rx_buf == Some(rx_buf)
            },
            outcome is Err ==> res == Err::<(), SpiError>(SpiError::Unsupported),
            outcome is Err ==> *final(self) == *old(self),
            outcome matches Ok((_, rx_buf)) ==> exists|bytes: &[u8]| #[trigger]
                call_ensures(received, (&rx_buf,), bytes) && final(buffer)@ == bytes@.take(
                    old(buffer)@.len() as int,
                ),
            outcome is Err ==> final(buffer)@ == old(buffer)@,
    {
        match outcome {
            Ok((spi, rx_buf)) => {
                fill_from(received(&rx_buf), buffer);
                self.spi = Some(spi);
                self.rx_buf = Some(rx_buf);
                Ok(())
            },
            Err(_) => Err(SpiError::Unsupported),
        }
    }
}

} // verus!
