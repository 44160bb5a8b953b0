use rf_a::services::rmmd::smc::{RecCall, StreamSelector, IDE_KEY_SET_STOP};

#[test]
fn ide_key_set_stop_decodes() {
    assert_eq!(IDE_KEY_SET_STOP, 0xC400_01B9);
    let regs = [0xC400_01B9u64, 0x4000_0000, 1, 0x1A05, 7, 9, 0];
    assert_eq!(
        RecCall::from_regs(&regs),
        Ok(RecCall::IdeKeySetStop {
            ecam_address: 0x4000_0000,
            rp_id: 1,
            stream: StreamSelector { keyset: true, dir: true, substream: 2, stream_id: 5 },
            request_id: 7,
            cookie: 9,
        })
    );
}
