use vsock::{
    port_of_draw, Error, GetRandomError, PortDraw, PortPolicy, Vsock, BIND_RETRIES,
    MAX_PRIVILEGED_PORT,
};

#[test]
fn rand_ports() {
    let mut ports = Vec::new();
    for _i in 0..1000 {
        let port = Vsock::gen_rand_port().unwrap().unwrap();
        assert!(MAX_PRIVILEGED_PORT < port);
        assert!(ports.iter().all(|p| *p != port));
        ports.push(port);
    }
}

#[test]
fn privileged_ports_end_at_1023() {
    assert_eq!(MAX_PRIVILEGED_PORT, 1023);
    assert_eq!(port_of_draw(Ok([0xff, 0x03, 0, 0])), PortDraw::Again);
    assert_eq!(port_of_draw(Ok([0x00, 0x04, 0, 0])), PortDraw::Port(1024));
    assert_eq!(port_of_draw(Ok([0, 0, 0, 0])), PortDraw::Again);
}

#[test]
fn drawn_bytes_are_little_endian() {
    assert_eq!(port_of_draw(Ok([0x78, 0x56, 0x34, 0x12])), PortDraw::Port(0x12345678));
    assert_eq!(port_of_draw(Ok([0xff, 0xff, 0xff, 0xff])), PortDraw::Port(u32::MAX));
    for bytes in [[1, 2, 3, 4], [0, 0, 0, 0x80], [9, 200, 0, 17]] {
        assert_eq!(port_of_draw(Ok(bytes)), PortDraw::Port(u32::from_le_bytes(bytes)));
    }
}

#[test]
fn privileged_words_are_passed_over() {
    let words = [[255, 3, 0, 0], [0, 0, 0, 0], [0, 4, 0, 0]];
    let draws: Vec<PortDraw> = words.into_iter().map(|word| port_of_draw(Ok(word))).collect();
    assert_eq!(draws, [PortDraw::Again, PortDraw::Again, PortDraw::Port(1024)]);
}

#[test]
fn failed_draw_is_an_entropy_error() {
    assert_eq!(
        port_of_draw(Err(GetRandomError::UNSUPPORTED)),
        PortDraw::Failed(Error::EntropyError)
    );
}

#[test]
fn retries_of_each_policy() {
    assert_eq!(BIND_RETRIES, 10);
    assert_eq!(PortPolicy::Random.retries(), 10);
    assert_eq!(PortPolicy::Explicit.retries(), 0);
}
