use esp_hal_qspi::device::{
    copy_to_front, fill_from, BounceBufferTooSmall, EspHalQspiDevice, ReadTransfer, SpiError,
    WriteTransfer,
};
use esp_hal_qspi::memory::{is_address_in_dram, DmaOperationKind};
use esp_hal_qspi::transaction::{
    Address, Command, DataMode, LineMode, PhaseConfig, QspiTransaction, TransferRequest,
};

type Device<'b> = EspHalQspiDevice<'b, &'static str, Vec<u8>, Vec<u16>>;

fn device(bounce: &mut [u8]) -> Device<'_> {
    EspHalQspiDevice {
        spi: Some("spi"),
        rx_buf: Some(vec![0; 8]),
        tx_descriptors: Some(vec![10, 11]),
        bounce_buf: Some(bounce),
    }
}

fn transaction() -> QspiTransaction {
    QspiTransaction {
        instruction: Some(PhaseConfig { value: 0x32, bytes_len: 1, mode: LineMode::Single }),
        address: Some(PhaseConfig { value: 0x2C00, bytes_len: 3, mode: LineMode::Single }),
        dummy_cycles: 2,
        data_mode: LineMode::Quad,
    }
}

fn request(length: usize) -> TransferRequest {
    TransferRequest {
        data_mode: DataMode::Quad,
        command: Command::_8Bit(0x32, DataMode::Single),
        address: Address::_24Bit(0x2C00, DataMode::Single),
        dummy_cycles: 2,
        length,
    }
}

fn bytes_of(rx_buf: &Vec<u8>) -> &[u8] {
    rx_buf.as_slice()
}

fn begun<'b>(
    dev: &mut Device<'b>,
    data: &[u8],
    kind: DmaOperationKind,
) -> WriteTransfer<'b, &'static str, Vec<u16>> {
    match dev.begin_write_as(&transaction(), data, kind) {
        Ok(transfer) => transfer,
        Err(e) => panic!("no room: {:?}", e),
    }
}

#[test]
fn copied_write_stages_the_payload() {
    let mut bounce = [9u8; 6];
    let mut dev = device(&mut bounce);
    let transfer = begun(&mut dev, &[1, 2, 3, 4], DmaOperationKind::Copied);
    assert_eq!(transfer.spi, "spi");
    assert_eq!(transfer.tx_descriptors, vec![10, 11]);
    assert_eq!(transfer.bounce_buf, &[1, 2, 3, 4, 9, 9]);
    assert_eq!(transfer.kind, DmaOperationKind::Copied);
    assert_eq!(transfer.request, request(4));
    assert!(dev.spi.is_none());
    assert!(dev.tx_descriptors.is_none());
    assert!(dev.bounce_buf.is_none());
    assert_eq!(dev.rx_buf, Some(vec![0; 8]));
}

#[test]
fn in_place_write_leaves_the_bounce_buffer_alone() {
    let mut bounce = [9u8; 2];
    let mut dev = device(&mut bounce);
    let transfer = begun(&mut dev, &[1, 2, 3, 4], DmaOperationKind::InPlace);
    assert_eq!(transfer.bounce_buf, &[9, 9]);
    assert_eq!(transfer.kind, DmaOperationKind::InPlace);
    assert_eq!(transfer.request, request(4));
}

#[test]
fn finished_write_gives_the_handles_back() {
    let mut bounce = [9u8; 4];
    {
        let mut dev = device(&mut bounce);
        let transfer = begun(&mut dev, &[5, 6], DmaOperationKind::Copied);
        let WriteTransfer { spi, tx_descriptors, bounce_buf, .. } = transfer;
        let res = dev.finish_write(Ok::<_, ()>((spi, tx_descriptors)), bounce_buf);
        assert_eq!(res, Ok(()));
        assert_eq!(dev.spi, Some("spi"));
        assert_eq!(dev.tx_descriptors, Some(vec![10, 11]));
        assert_eq!(dev.bounce_buf.as_deref(), Some(&[5u8, 6, 9, 9][..]));
        assert_eq!(dev.rx_buf, Some(vec![0; 8]));
    }
    assert_eq!(bounce, [5, 6, 9, 9]);
}

#[test]
fn refused_write_loses_the_handles() {
    let mut bounce = [9u8; 4];
    let mut dev = device(&mut bounce);
    let transfer = begun(&mut dev, &[5, 6], DmaOperationKind::Copied);
    let res = dev.finish_write(Err("too long"), transfer.bounce_buf);
    assert_eq!(res, Err(SpiError::Unsupported));
    assert!(dev.spi.is_none());
    assert!(dev.tx_descriptors.is_none());
    assert!(dev.bounce_buf.is_none());
    assert_eq!(dev.rx_buf, Some(vec![0; 8]));
}

#[test]
fn begin_write_goes_by_the_address_of_the_payload() {
    let data: Vec<u8> = vec![1, 2, 3];
    let mut bounce = [0u8; 3];
    let mut dev = device(&mut bounce);
    match dev.begin_write(&transaction(), &data) {
        Ok(transfer) => {
            let in_dram = is_address_in_dram(data.as_ptr() as usize);
            let staged: [u8; 3] = if in_dram { [0, 0, 0] } else { [1, 2, 3] };
            assert_eq!(transfer.kind, DmaOperationKind::for_placement(in_dram));
            assert_eq!(transfer.bounce_buf, &staged);
            assert_eq!(transfer.payload(&data), &[1, 2, 3]);
            assert_eq!(transfer.request, request(3));
        }
        Err(_) => panic!("a payload as long as the bounce buffer has room"),
    }
}

#[test]
fn begin_write_at_copies_what_lies_outside_dram() {
    let mut bounce = [9u8; 4];
    let mut dev = device(&mut bounce);
    match dev.begin_write_at(&transaction(), &[1, 2, 3], 0x3C00_0000) {
        Ok(transfer) => {
            assert_eq!(transfer.kind, DmaOperationKind::Copied);
            assert_eq!(transfer.bounce_buf, &[1, 2, 3, 9]);
            assert_eq!(transfer.request, request(3));
        }
        Err(_) => panic!("the payload has room"),
    }
}

#[test]
fn begin_write_at_sends_from_dram_in_place() {
    let mut bounce = [9u8; 2];
    let mut dev = device(&mut bounce);
    match dev.begin_write_at(&transaction(), &[1, 2, 3], 0x3FCE_0000) {
        Ok(transfer) => {
            assert_eq!(transfer.kind, DmaOperationKind::InPlace);
            assert_eq!(transfer.bounce_buf, &[9, 9]);
            assert_eq!(transfer.request, request(3));
        }
        Err(_) => panic!("a payload in DRAM needs no room"),
    }
}

#[test]
fn payload_is_the_data_or_the_front_of_the_bounce_buffer() {
    let mut bounce = [9u8; 4];
    let data = [1u8, 2, 3];
    let mut dev = device(&mut bounce);
    let transfer = begun(&mut dev, &data, DmaOperationKind::Copied);
    assert_eq!(transfer.payload(&data), &[1, 2, 3]);
    assert_eq!(transfer.payload(&data).as_ptr(), transfer.bounce_buf.as_ptr());
    let WriteTransfer { spi, tx_descriptors, bounce_buf, .. } = transfer;
    assert!(dev.finish_write(Ok::<_, ()>((spi, tx_descriptors)), bounce_buf).is_ok());

    let transfer = begun(&mut dev, &data, DmaOperationKind::InPlace);
    assert_eq!(transfer.payload(&data), &[1, 2, 3]);
    assert_eq!(transfer.payload(&data).as_ptr(), data.as_ptr());
}

#[test]
fn begin_write_without_payload() {
    let mut bounce: [u8; 0] = [];
    let mut dev = device(&mut bounce);
    match dev.begin_write(&transaction(), &[]) {
        Ok(transfer) => assert_eq!(transfer.request, request(0)),
        Err(_) => panic!("an empty payload always has room"),
    }
}

#[test]
fn begin_write_at_rejects_a_long_payload() {
    let data: Vec<u8> = vec![1; 257];
    let mut bounce = [0u8; 256];
    let mut dev = device(&mut bounce);
    match dev.begin_write_at(&transaction(), &data, 0x3C00_0000) {
        Ok(_) => panic!("the payload has no room"),
        Err(e) => assert_eq!(e, BounceBufferTooSmall { data_len: 257, capacity: 256 }),
    }
    assert_eq!(dev.spi, Some("spi"));
    assert_eq!(dev.tx_descriptors, Some(vec![10, 11]));
    assert_eq!(dev.bounce_buf.as_deref(), Some(&[0u8; 256][..]));
}

#[test]
fn begin_write_rejects_a_long_payload_outside_dram() {
    let data: Vec<u8> = vec![1; 257];
    let mut bounce = [0u8; 256];
    let mut dev = device(&mut bounce);
    let in_dram = is_address_in_dram(data.as_ptr() as usize);
    let res = dev.begin_write(&transaction(), &data);
    assert_eq!(res.is_ok(), in_dram);
    if let Err(e) = res {
        assert_eq!(e, BounceBufferTooSmall { data_len: 257, capacity: 256 });
    }
}

#[test]
fn only_a_copied_payload_needs_room() {
    let mut bounce = [0u8; 2];
    let mut dev = device(&mut bounce);
    match dev.begin_write_as(&transaction(), &[1, 2, 3], DmaOperationKind::Copied) {
        Ok(_) => panic!("the payload has no room"),
        Err(e) => assert_eq!(e, BounceBufferTooSmall { data_len: 3, capacity: 2 }),
    }
    let transfer = begun(&mut dev, &[1, 2, 3], DmaOperationKind::InPlace);
    assert_eq!(transfer.request, request(3));
    assert_eq!(transfer.bounce_buf, &[0, 0]);
}

#[test]
fn read_takes_and_returns_its_handles() {
    let mut bounce = [9u8; 4];
    let mut dev = device(&mut bounce);
    let ReadTransfer { spi, mut rx_buf, request: asked } = dev.begin_read(&transaction(), 3);
    assert_eq!(spi, "spi");
    assert_eq!(rx_buf, vec![0; 8]);
    assert_eq!(asked, request(3));
    assert!(dev.spi.is_none());
    assert!(dev.rx_buf.is_none());
    assert_eq!(dev.tx_descriptors, Some(vec![10, 11]));
    assert_eq!(dev.bounce_buf.as_deref(), Some(&[9u8; 4][..]));

    rx_buf[..3].copy_from_slice(&[21, 22, 23]);
    let mut buffer = [0u8; 3];
    let res = dev.finish_read(Ok::<_, ()>((spi, rx_buf)), bytes_of, &mut buffer);
    assert_eq!(res, Ok(()));
    assert_eq!(buffer, [21, 22, 23]);
    assert_eq!(dev.spi, Some("spi"));
    assert_eq!(dev.rx_buf, Some(vec![21, 22, 23, 0, 0, 0, 0, 0]));
}

#[test]
fn refused_read_loses_the_handles_and_keeps_the_buffer() {
    let mut bounce = [9u8; 4];
    let mut dev = device(&mut bounce);
    let _ = dev.begin_read(&transaction(), 2);
    let mut buffer = [77u8; 2];
    let res = dev.finish_read(Err("busy"), bytes_of, &mut buffer);
    assert_eq!(res, Err(SpiError::Unsupported));
    assert_eq!(buffer, [77, 77]);
    assert!(dev.spi.is_none());
    assert!(dev.rx_buf.is_none());
    assert_eq!(dev.tx_descriptors, Some(vec![10, 11]));
    assert_eq!(dev.bounce_buf.as_deref(), Some(&[9u8; 4][..]));
}

#[test]
fn transfers_follow_each_other() {
    let mut bounce = [0u8; 4];
    let mut dev = device(&mut bounce);
    for n in 1u8..=4 {
        let payload: Vec<u8> = vec![n; n as usize];
        let transfer = begun(&mut dev, &payload, DmaOperationKind::Copied);
        assert_eq!(&transfer.bounce_buf[..n as usize], &payload[..]);
        let WriteTransfer { spi, tx_descriptors, bounce_buf, .. } = transfer;
        assert!(dev.finish_write(Ok::<_, ()>((spi, tx_descriptors)), bounce_buf).is_ok());
        let ReadTransfer { spi, rx_buf, .. } = dev.begin_read(&transaction(), 1);
        let mut buffer = [1u8; 1];
        assert!(dev.finish_read(Ok::<_, ()>((spi, rx_buf)), bytes_of, &mut buffer).is_ok());
        assert_eq!(buffer, [0]);
    }
    assert_eq!(dev.bounce_buf.as_deref(), Some(&[4u8; 4][..]));
}

#[test]
fn copying_and_filling() {
    let mut dst = [1u8, 2, 3];
    copy_to_front(&[7, 8], &mut dst);
    assert_eq!(dst, [7, 8, 3]);
    copy_to_front(&[], &mut dst);
    assert_eq!(dst, [7, 8, 3]);
    fill_from(&[4, 5, 6, 7], &mut dst);
    assert_eq!(dst, [4, 5, 6]);
}
