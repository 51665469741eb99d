use vehicle_daq::asm330::{
    configure_ctrl3_c_reg, enable_xl, make_ctrl1_xl_reg, make_ctrl2_g_reg, AccelFs as DrvAccelFs, GyroFs as DrvGyroFs,
    Odr as DrvOdr, RawImuData as DrvRawImuData, RawSensorData,
};
use vehicle_daq::board::asm330::{self as rev1, AccelFs as Rev1AccelFs, AccelOdr};
use vehicle_daq::board::gps::{
    calculate_nmea_checksum, cfg_rate_10hz_packet, chosen_baud, detect_baud_rate_list, init_gps_commands,
    is_gga_candidate, nmea_command, on_gps_bytes, trim_bytes, try_send_gps_data, ubx_packet, DetectLines, GpsFixCache,
    NmeaAssembler, RawGgaStore,
};
use vehicle_daq::board::hmi::HmiStateData;
use vehicle_daq::board::imu::{
    decode_axis, decode_gy_xyz, decode_timestamp, decode_xl_gy_combined, decode_xl_xyz, enable_timestamp, i16_from_le,
    read_burst_frame, read_command, read_status_data, sample_ready, set_block_data_update, set_gyro_config, set_xl_fsr,
    set_xl_odr, write_command, write_frame, AccelFs, GyroFs, Odr,
};
use vehicle_daq::board::types::GpsTime;
use vehicle_daq::board::gps::detected_gps_baud;
use vehicle_daq::asm330::device::{
    configure_accel, configure_den, configure_event, configure_fifo, configure_gyro, configure_interrupt,
    configure_system, counter_bdr_reg1_reset, ctrl10_c_time, ctrl1_xl_for, ctrl3_c_reboot, ctrl3_c_sw_reset,
    ctrl4_c_sleep_gyro, ctrl4_c_wake_gyro, read_accel, read_gyro, read_temp, read_time, who_am_i_ok, AccelConfig,
    AccelRegs, AccelScale, BatchCounterSrc, DenConfig, DenRegs, EventConfig, EventFilter, EventRegs, FifoConfig,
    FifoMode, FifoRegs, FreeFallThresh, GyroConfig, GyroHighPassMode, GyroRegs, GyroScale, InactMode, Interrupt1Mask,
    Interrupt2Mask, InterruptConfig, InterruptPinMode, InterruptRegs, Odr as DevOdr, Rounding, SixDThresh, SpiMode,
    StampSensor, SystemConfig, SystemRegs, TempBatchOdr, TimestampDecimation, TriggerMode, UsrOffWeight,
    WakeThresholdWeight,
};
use vehicle_daq::asm330::regs::{set_field, spi_read_command, spi_write_command};

#[test]
fn nmea_checksum_is_xor() {
    assert_eq!(calculate_nmea_checksum(b""), 0);
    assert_eq!(calculate_nmea_checksum(b"PUBX,40,GSA,0,0,0,0,0,0"), 0x4E);
}

#[test]
fn nmea_commands_are_framed() {
    assert_eq!(nmea_command(b"PUBX,40,GSA,0,0,0,0,0,0").unwrap(), b"$PUBX,40,GSA,0,0,0,0,0,0*4E\r\n".to_vec());
    assert_eq!(nmea_command(&[b'A'; 122]).unwrap().len(), 128);
    assert!(nmea_command(&[b'A'; 123]).is_none());
    let cmds = init_gps_commands();
    assert_eq!(cmds.len(), 3);
    assert_eq!(cmds[1], b"$PUBX,40,GSV,0,0,0,0,0,0*59\r\n".to_vec());
    assert_eq!(cmds[2], b"$PUBX,40,GLL,0,0,0,0,0,0*5C\r\n".to_vec());
}

#[test]
fn ubx_packet_has_fletcher_checksum() {
    let p = ubx_packet(0x06, 0x8A, &[0x00, 0x07]);
    assert_eq!(p, vec![0xB5, 0x62, 0x06, 0x8A, 0x02, 0x00, 0x00, 0x07, 0x99, 0xE5]);
    let rate = cfg_rate_10hz_packet();
    assert_eq!(rate.len(), 18);
    assert_eq!(&rate[..6], &[0xB5, 0x62, 0x06, 0x8A, 0x0A, 0x00]);
    let big = ubx_packet(0x01, 0x02, &[0u8; 125]);
    assert_eq!(big, vec![0xB5, 0x62, 0x01, 0x02, 125, 0, 0x80, 0x04]);
}

#[test]
fn sentences_split_across_chunks() {
    let mut a = NmeaAssembler::new();
    let (s1, ok1) = a.push_chunk(b"$GPGGA,1,2\r\n$GPRM");
    assert!(ok1);
    assert_eq!(s1, vec![b"$GPGGA,1,2".to_vec()]);
    let (s2, _) = a.push_chunk(b"C,3\n  \n$x\nabc");
    assert_eq!(s2, vec![b"$GPRMC,3".to_vec()]);
    let (s3, _) = a.push_chunk(b"defg\n");
    assert_eq!(s3, vec![b"abcdefg".to_vec()]);
}

#[test]
fn sentence_length_filter_and_invalid_utf8() {
    let mut a = NmeaAssembler::new();
    let mut long = vec![b'A'; 84];
    long.push(b'\n');
    let (s, _) = a.push_chunk(&long);
    assert!(s.is_empty());
    let (s2, ok) = a.push_chunk(&[0xFF, b'\n']);
    assert!(ok);
    assert!(s2.is_empty());
    let (s3, _) = a.push_chunk(b"$GPVTG\n");
    assert_eq!(s3, vec![b"$GPVTG".to_vec()]);
}

#[test]
fn assembler_drops_overflowing_chunk() {
    let mut a = NmeaAssembler::new();
    let (_, ok) = a.push_chunk(&[b'x'; 1000]);
    assert!(ok);
    let (s, ok2) = a.push_chunk(&[b'y'; 30]);
    assert!(!ok2);
    assert!(s.is_empty());
    let (s3, ok3) = a.push_chunk(b"\n");
    assert!(ok3);
    assert!(s3.is_empty());
}

#[test]
fn trim_removes_ascii_whitespace() {
    assert_eq!(trim_bytes(b" \t$GPGGA\r"), b"$GPGGA".to_vec());
    assert_eq!(trim_bytes(b"   "), Vec::<u8>::new());
}

#[test]
fn trim_removes_unicode_whitespace_like_str_trim() {
    for text in ["\u{a0}$GPGGA,1\u{3000}\r", "\u{85}\u{2009} $GN\u{2028}", "\u{1680}x\u{205f}\u{202f}", "\u{2000}\u{200a}", "a\u{a0}b", "é\u{a0}"] {
        assert_eq!(trim_bytes(text.as_bytes()), text.trim().as_bytes().to_vec());
    }
}

#[test]
fn gps_cache_needs_a_position() {
    assert!(try_send_gps_data(None, Some(1), None, None, None, None).is_none());
    let mut c = GpsFixCache::new();
    let mut hmi = HmiStateData::new();
    assert!(c.on_vtg(Some(5), Some(90)).is_none());
    let t = GpsTime { year: 2024, month: 1, day: 2, hours: 3, minutes: 4, seconds: 5, millis: 6 };
    c.on_rmc(Some(t), None, None, None, None);
    let s = c.on_gga(Some(10), Some(20), None, &mut hmi, 777).unwrap();
    assert_eq!(s.lat_bits, 10);
    assert_eq!(s.lon_bits, 20);
    assert_eq!(s.alt_bits, 0);
    assert_eq!(s.speed_kts_bits, 5);
    assert_eq!(s.heading, 90);
    assert_eq!(s.utc_time, t);
    assert!(hmi.gps_fix);
    assert_eq!(hmi.last_gps_ms, Some(777));
    let s2 = c.on_gga(None, None, Some(3), &mut hmi, 800).unwrap();
    assert_eq!(s2.lat_bits, 10);
    assert_eq!(s2.alt_bits, 3);
    assert!(!hmi.gps_fix);
    on_gps_bytes(0, &mut hmi, 900);
    assert_eq!(hmi.last_gps_rx_ms, None);
    on_gps_bytes(12, &mut hmi, 901);
    assert_eq!(hmi.last_gps_rx_ms, Some(901));
}

#[test]
fn raw_gga_is_truncated() {
    let mut st = RawGgaStore::new();
    assert!(st.last_raw_gga().is_none());
    st.set_last_raw_gga(b"$GPGGA,x");
    assert_eq!(st.last_raw_gga().unwrap(), b"$GPGGA,x".to_vec());
    st.set_last_raw_gga(&[b'a'; 100]);
    assert_eq!(st.last_raw_gga().unwrap().len(), 83);
    let mut wide = vec![0xC3, 0xA9];
    wide.extend_from_slice(&[b'b'; 90]);
    st.set_last_raw_gga(&wide);
    assert_eq!(st.last_raw_gga().unwrap().len(), 84);
}

#[test]
fn raw_gga_keeps_first_83_ascii_characters() {
    let mut st = RawGgaStore::new();
    let long: Vec<u8> = (0..120u8).map(|i| b'0' + i % 10).collect();
    st.set_last_raw_gga(&long);
    assert_eq!(st.last_raw_gga().unwrap(), long[..83].to_vec());
    st.set_last_raw_gga(&long[..83]);
    assert_eq!(st.last_raw_gga().unwrap(), long[..83].to_vec());
    st.set_last_raw_gga(b"");
    assert!(st.last_raw_gga().is_none());
}

#[test]
fn baud_detection_helpers() {
    assert_eq!(detect_baud_rate_list(), vec![9600, 38400, 115200, 460800]);
    assert_eq!(chosen_baud(None), 9600);
    assert_eq!(chosen_baud(Some(115200)), 115200);
    assert!(is_gga_candidate(b"$GNGGA,"));
    assert!(is_gga_candidate(b"$GPGGA,1"));
    assert!(!is_gga_candidate(b"$GPGGA"));
    assert!(!is_gga_candidate(b"$GPRMC,1"));
    let mut d = DetectLines::new();
    let mut found = vec![];
    for &b in b"junk\r\n $GPGGA,12 \r\n$GPRMC,1\n" {
        if let Some(s) = d.push_byte(b) {
            found.push(s);
        }
    }
    assert_eq!(found, vec![b"$GPGGA,12".to_vec()]);
}

#[test]
fn imu_command_frames() {
    assert_eq!(read_command(0x0F), 0x8F);
    assert_eq!(write_command(0x90), 0x10);
    assert_eq!(write_frame(0x10, 0x60), [0x10, 0x60]);
    assert_eq!(read_burst_frame(0x22, 12), {
        let mut v = vec![0xA2];
        v.extend_from_slice(&[0; 12]);
        v
    });
    assert_eq!(rev1::who_am_i_frame(), [0x8F, 0x00]);
}

#[test]
fn imu_register_updates() {
    assert_eq!(set_xl_fsr(0xFF, AccelFs::G2), 0xF3);
    assert_eq!(set_xl_fsr(0x00, AccelFs::G16), 0x04);
    assert_eq!(set_xl_odr(0x0C, Odr::Hz417), 0x6C);
    assert_eq!(set_gyro_config(0xFF, Odr::Hz104, GyroFs::DPS1000), 0x49);
    assert_eq!(enable_timestamp(0x01), 0x21);
    assert_eq!(set_block_data_update(0x04, true), 0x44);
    assert_eq!(set_block_data_update(0x44, false), 0x04);
    assert_eq!(set_xl_odr(set_xl_fsr(0x03, AccelFs::G8), Odr::Hz52), set_xl_fsr(set_xl_odr(0x03, Odr::Hz52), AccelFs::G8));
    assert_eq!(rev1::set_xl_fsr(0xFF, Rev1AccelFs::G4), 0xFB);
    assert_eq!(rev1::set_xl_odr(0x0F, AccelOdr::Hz208), 0x5F);
}

#[test]
fn imu_sample_decoding() {
    assert_eq!(i16_from_le(0xFF, 0xFF), -1);
    assert_eq!(i16_from_le(0x00, 0x80), i16::MIN);
    assert_eq!(i16_from_le(0x34, 0x12), 0x1234);
    assert_eq!(decode_axis(&[0, 0x10, 0x00]), 16);
    let xl = decode_xl_xyz(&[0, 1, 0, 0xFE, 0xFF, 0, 0x40]);
    assert_eq!((xl.x, xl.y, xl.z), (1, -2, 16384));
    let gy = decode_gy_xyz(&[0xAA, 5, 0, 6, 0, 7, 0]);
    assert_eq!((gy.x, gy.y, gy.z), (5, 6, 7));
    assert_eq!(decode_timestamp(&[0, 0x78, 0x56, 0x34, 0x12]), 0x12345678);
    let both = decode_xl_gy_combined(&[0, 1, 0, 2, 0, 3, 0, 4, 0, 5, 0, 6, 0], 99);
    assert_eq!((both.gy.x, both.gy.z, both.xl.x, both.xl.z, both.ts), (1, 3, 4, 6, 99));
    assert_eq!(rev1::read_z_axis(&[0, 0xFF, 0x7F]), i16::MAX);
}

#[test]
fn imu_status_flags() {
    let s = read_status_data(0b0000_0011);
    assert!(s.xlda && s.gda && !s.tda);
    assert!(sample_ready(s));
    assert!(!sample_ready(read_status_data(0b0000_0101)));
}

#[test]
fn driver_register_composition() {
    assert_eq!(make_ctrl1_xl_reg(DrvOdr::Hz104, DrvAccelFs::G4, true), 0x4A);
    assert_eq!(make_ctrl1_xl_reg(DrvOdr::Hz6667, DrvAccelFs::G16, false), 0xA4);
    assert_eq!(make_ctrl2_g_reg(DrvOdr::Hz417, DrvGyroFs::DPS2000), 0x6C);
    assert_eq!(enable_xl(DrvOdr::Hz12_5, DrvAccelFs::G2, false), 0x10);
    assert_eq!(configure_ctrl3_c_reg(0x04, Some(true)), 0x44);
    assert_eq!(configure_ctrl3_c_reg(0x44, Some(false)), 0x04);
    assert_eq!(configure_ctrl3_c_reg(0x44, None), 0x44);
    assert_eq!(vehicle_daq::asm330::enable_timestamp(0x00), 0x20);
    let r = DrvRawImuData {
        xl: RawSensorData { x: 1, y: 2, z: 3, valid: true },
        gy: RawSensorData { x: 0, y: 0, z: 0, valid: false },
        ts: Some(5),
        temp: None,
    };
    assert_eq!(r.xl.z, 3);
}

#[test]
fn baud_detection_takes_first_rate_with_gga() {
    assert_eq!(detected_gps_baud(&[false, false, false, false]), 9600);
    assert_eq!(detected_gps_baud(&[false, true, false, true]), 38400);
    assert_eq!(detected_gps_baud(&[false, false, false, true]), 460800);
    assert_eq!(detected_gps_baud(&[true, true, true, true]), 9600);
}

#[test]
fn device_register_fields() {
    assert_eq!(set_field(0xFF, 4, 4, 0x3), 0x3F);
    assert_eq!(set_field(0x00, 2, 2, 0x7), 0x0C);
    assert_eq!(spi_read_command(0x0F), 0x8F);
    assert_eq!(spi_write_command(0x90), 0x10);
    assert!(who_am_i_ok(0x6B));
    assert!(!who_am_i_ok(0x6A));
    assert_eq!(ctrl3_c_sw_reset(0x44), 0x45);
    assert_eq!(ctrl3_c_reboot(0x40, 0x04), 0x84);
    assert_eq!(ctrl4_c_sleep_gyro(0x02), 0x42);
    assert_eq!(ctrl4_c_wake_gyro(0x42), 0x02);
    assert_eq!(counter_bdr_reg1_reset(0x01), 0x41);
    assert_eq!(ctrl10_c_time(0x00, true), 0x20);
    assert_eq!(ctrl10_c_time(0xFF, false), 0xDF);
    assert_eq!(ctrl1_xl_for(0x01, DevOdr::Hz104, AccelScale::G4, true), 0x4B);
}

#[test]
fn device_accel_and_gyro_configuration() {
    let cur = AccelRegs { ctrl1_xl: 0, ctrl8_xl: 0, ctrl6_c: 0xFF, ctrl7_g: 0, x_ofs_usr: 9, y_ofs_usr: 9, z_ofs_usr: 9 };
    let cfg = AccelConfig {
        odr: DevOdr::Hz833,
        fs: AccelScale::G16,
        lpf2_en: false,
        high_pass_cutoff: 5,
        high_pass_ref_mode_en: true,
        high_pass_fast_settle_en: false,
        high_pass_slope_xl_en: true,
        low_pass_on_6d_en: true,
        usr_off_weight: UsrOffWeight::Small,
        usr_off_on_out_en: true,
        x_ofs_usr: 1,
        y_ofs_usr: 2,
        z_ofs_usr: 3,
    };
    let r = configure_accel(cur, cfg);
    assert_eq!(r.ctrl1_xl, 0x74);
    assert_eq!(r.ctrl8_xl, 0b1011_0101);
    assert_eq!(r.ctrl6_c, 0xF7);
    assert_eq!(r.ctrl7_g, 0x02);
    assert_eq!((r.x_ofs_usr, r.y_ofs_usr, r.z_ofs_usr), (1, 2, 3));
    let g = configure_gyro(
        GyroRegs { ctrl2_g: 0xFF, ctrl7_g: 0, ctrl6_c: 0xF8, ctrl4_c: 0 },
        GyroConfig {
            odr: DevOdr::Hz208,
            fs: GyroScale::Dps2000,
            high_pass_en: true,
            high_pass_mode: GyroHighPassMode::Mode280,
            low_pass_filter_select: 3,
            low_pass_filter_en: true,
        },
    );
    assert_eq!(g.ctrl2_g, 0x5C);
    assert_eq!(g.ctrl7_g, 0x60);
    assert_eq!(g.ctrl6_c, 0xFB);
    assert_eq!(g.ctrl4_c, 0x02);
}

#[test]
fn device_fifo_system_interrupt_event_den() {
    let f = configure_fifo(
        FifoRegs { fifo_ctrl1: 0, fifo_ctrl2: 0, fifo_ctrl3: 0, fifo_ctrl4: 0, counter_bdr_reg1: 0, counter_bdr_reg2: 0 },
        FifoConfig {
            wtm: 0x1AB,
            odrchg_en: true,
            stop_on_wtm: true,
            bdr_gy: DevOdr::Hz52,
            bdr_xl: DevOdr::Hz26,
            timestamp_decimation: TimestampDecimation::BDRBy8,
            temperature_batch_rate: TempBatchOdr::Batched52,
            fifo_mode: FifoMode::Cont,
            data_ready_pulsed_en: true,
            batch_counter_src: BatchCounterSrc::Gyro,
            batch_event_threshold: 0x2CD,
        },
    );
    assert_eq!((f.fifo_ctrl1, f.fifo_ctrl2, f.fifo_ctrl3, f.fifo_ctrl4), (0xAB, 0x91, 0x32, 0xB6));
    assert_eq!((f.counter_bdr_reg1, f.counter_bdr_reg2), (0xA2, 0xCD));
    let s = configure_system(
        SystemRegs { pin_ctrl: 0x3F, ctrl3_c: 0, ctrl4_c: 0, ctrl5_c: 0, ctrl9_xl: 0xE0 },
        SystemConfig {
            i2c_disable: true,
            sdo_pullup_en: true,
            block_data_update_en: true,
            interrupt_pin_mode: InterruptPinMode::OpenDrain,
            spi_mode_select: SpiMode::FourWire,
            reg_addr_auto_increment_en: true,
            rounding_mode: Rounding::Both,
        },
    );
    assert_eq!((s.pin_ctrl, s.ctrl3_c, s.ctrl4_c, s.ctrl5_c, s.ctrl9_xl), (0x7F, 0x54, 0x04, 0x60, 0xE2));
    let m1 = Interrupt1Mask {
        cnt_bdr: false, fifo_full: false, fifo_ovr: false, fifo_th: true, boot: false, drdy_g: true, drdy_xl: true,
        sleep_change: true, wu: false, ff: true, int_6d: false, den_drdy: false,
    };
    let m2 = Interrupt2Mask {
        cnt_bdr: true, fifo_full: false, fifo_ovr: false, fifo_th: false, drdy_temp: true, drdy_g: false,
        drdy_xl: false, sleep_change: false, wu: true, ff: false, int_6d: true, timestamp: true,
    };
    let i = configure_interrupt(
        InterruptRegs { ctrl4_c: 0, ctrl3_c: 0, int_cfg0: 0, int_cfg1: 0, md1_cfg: 0, md2_cfg: 0, int1_ctrl: 0, int2_ctrl: 0 },
        InterruptConfig {
            int2_on_int1: true, active_low: true, drdy_mask_en: false, clear_on_read_en: true,
            sleep_status_en: false, latched_en: true, interrupts_en: true, int1_mask: m1, int2_mask: m2,
        },
    );
    assert_eq!((i.ctrl4_c, i.ctrl3_c, i.int_cfg0, i.int_cfg1), (0x20, 0x20, 0x41, 0x80));
    assert_eq!((i.md1_cfg, i.md2_cfg, i.int1_ctrl, i.int2_ctrl), (0x90, 0x25, 0x0B, 0x44));
    let e = configure_event(
        EventRegs { int_cfg0: 0, int_cfg1: 0, ths_6d: 0, wake_up_ths: 0, wake_up_dur: 0, free_fall: 0 },
        EventConfig {
            event_filter_select: EventFilter::HighPass, inact_en: InactMode::Accel12_5GyroSleep, d4d_en: true,
            sixd_threshold: SixDThresh::Thresh60Deg, usr_off_on_wu: true, wake_up_threshold: 0x2A,
            wake_up_duration: 3, wake_up_threshold_weight: WakeThresholdWeight::Small, sleep_duration: 9,
            ff_dur: 0x25, ff_ths: FreeFallThresh::Thresh312,
        },
    );
    assert_eq!((e.int_cfg0, e.int_cfg1, e.ths_6d, e.wake_up_ths, e.wake_up_dur, e.free_fall), (0x10, 0x40, 0xC0, 0x6A, 0xF9, 0x2B));
    let d = configure_den(DenRegs { ctrl9_xl: 0, ctrl6_c: 0x1F }, DenConfig::default());
    assert_eq!((d.ctrl9_xl, d.ctrl6_c), (0xE0, 0x1F));
    let d2 = configure_den(
        DenRegs { ctrl9_xl: 0xFF, ctrl6_c: 0 },
        DenConfig { on_x: false, on_y: true, on_z: false, stamping_sensor: StampSensor::Accel, extend_to_accel: false,
            active_high: true, trigger_mode: TriggerMode::EdgeTrig },
    );
    assert_eq!((d2.ctrl9_xl, d2.ctrl6_c), (0x57, 0x80));
}

#[test]
fn device_sample_reads() {
    let g = read_gyro([0x34, 0x12, 0xFF, 0xFF, 0x00, 0x80]);
    assert_eq!((g.x, g.y, g.z), (0x1234, -1, i16::MIN));
    let a = read_accel([0x01, 0x00, 0x00, 0x01, 0xFE, 0x7F]);
    assert_eq!((a.x, a.y, a.z), (1, 256, 0x7FFE));
    assert_eq!(read_temp(0x10, 0xFF), -240);
    assert_eq!(read_time([0x78, 0x56, 0x34, 0x12]), 0x1234_5678);
}
