use wie::canvas::{Canvas, Canvases};
use wie::classes::{Clip, Thread, DataBase, HandsetProperty, File, Vibrator,
    InvalidRecordIDException, Toolkit, JavaMethodFlag, JavaFieldAccessFlag};
use wie::cpu::{ArmCore, HostFunction};
use wie::error::EmuError;
use wie::ktf::{init, init_peb, KtfPeb, KtfHooks, ModuleInfo, KtfCBridge, InitError};
use wie::instr::{encode, Instr};
use wie::records::{InitParam0, InitParam3, WipiExe};
use wie::runtime::{JvmRuntime, MemoryFile};
use wie::sched::Scheduler;
use wie::window::{key_event, pack_argb, WindowCallbackEvent};

fn test_core() -> ArmCore {
    ArmCore::new(0x20000, 0x10000, 0x8000)
}

fn words_bytes(words: &[u32]) -> Vec<u8> {
    let mut out = Vec::new();
    for w in words {
        out.extend_from_slice(&w.to_le_bytes());
    }
    out
}

fn program_bytes(instrs: &[Instr]) -> Vec<u8> {
    let mut out = Vec::new();
    for i in instrs {
        out.extend_from_slice(&encode(*i).to_le_bytes());
    }
    out
}

#[test]
fn init_param0_round_trips_as_zeroed_record() {
    let mut core = test_core();
    let address = core.allocate(4).unwrap();
    let record = InitParam0 { unk: 0 };
    record.write_to(&mut core.mem, address).unwrap();
    // The stored bytes are exactly a zeroed four-byte little-endian record.
    assert_eq!(core.read_raw(address, 4).unwrap(), vec![0u8, 0, 0, 0]);
    let back = InitParam0::read_from(&core.mem, address).unwrap();
    assert_eq!(back, record);
}

#[test]
fn init_param3_word_layout() {
    let p = InitParam3 {
        unk1: 0,
        unk2: 0,
        unk3: 0,
        unk4: 0,
        tag_boolean: 'Z' as u32,
        tag_char: 'C' as u32,
        tag_float: 'F' as u32,
        tag_double: 'D' as u32,
        tag_byte: 'B' as u32,
        tag_short: 'S' as u32,
        tag_int: 'I' as u32,
        tag_long: 'J' as u32,
    };
    let words = p.to_words();
    assert_eq!(words, vec![0, 0, 0, 0, 0x5a, 0x43, 0x46, 0x44, 0x42, 0x53, 0x49, 0x4a]);
}

#[test]
fn wipi_exe_reads_fixed_offsets() {
    let mut core = test_core();
    core.map(0x5000, 0x100).unwrap();
    let words = [0x5100u32, 0x11, 0x22, 0x33, 0x44, 0x55, 0x66, 0x77, 0x88, 0x99];
    core.write_raw(0x5000, &words_bytes(&words)).unwrap();
    let exe = WipiExe::read_from(&core.mem, 0x5000).unwrap();
    assert_eq!(exe.ptr_exe_interface, 0x5100);
    assert_eq!(exe.fn_init, 0x55);
    assert_eq!(exe.unk5, 0x99);
}

#[test]
fn init_peb_writes_pointer_page() {
    let mut core = test_core();
    init_peb(&mut core, KtfPeb { ptr_java_context_data: 0xdead }).unwrap();
    assert_eq!(core.read_raw(0x1000, 4).unwrap(), vec![0xadu8, 0xde, 0, 0]);
    assert_eq!(core.read_raw(0x1004, 4).unwrap(), vec![0u8, 0, 0, 0]);
}

#[test]
fn boot_sequence_yields_module_entry_points() {
    let mut core = test_core();
    core.map(0x4000, 0x1000).unwrap();
    core.map(0x5000, 0x1000).unwrap();
    // Entry point: hand back the executable's root record address.
    core.write_raw(0x4000, &program_bytes(&[
        Instr::MovImm { rd: 0, imm: 0x5000 },
        Instr::Bx { rn: 14 },
    ])).unwrap();
    // The module's initializer: report success.
    core.write_raw(0x4100, &program_bytes(&[
        Instr::MovImm { rd: 0, imm: 0 },
        Instr::Bx { rn: 14 },
    ])).unwrap();
    // Root record -> interface record -> function table.
    core.write_raw(0x5000, &words_bytes(&[0x5100, 0, 0, 0, 0, 0x55, 0, 0, 0, 0])).unwrap();
    core.write_raw(0x5100, &words_bytes(&[0x5200, 0, 0, 0, 0, 0, 0, 0])).unwrap();
    core.write_raw(0x5200, &words_bytes(&[0, 0, 0x4100, 0, 0x77, 0, 0])).unwrap();
    let mut sched = Scheduler::new(core, 0);
    let hooks = KtfHooks {
        fn_get_interface: HostFunction::fixed(0),
        fn_java_throw: HostFunction::fixed(0),
        fn_java_new: HostFunction::fixed(0),
        fn_java_array_new: HostFunction::fixed(0),
        fn_java_class_load: HostFunction::fixed(0),
    };
    let info = init(&mut sched, hooks, 0x4000, 0, 100_000).unwrap();
    assert_eq!(info, ModuleInfo { fn_init: 0x55, fn_get_class: 0x77 });
    // The environment block points at the vtable parameter block, a live
    // heap allocation.
    let peb = sched.core.read_raw(0x1000, 4).unwrap();
    let ptr = u32::from_le_bytes([peb[0], peb[1], peb[2], peb[3]]);
    assert!(ptr >= 0x10000 && ptr < 0x18000);
}

#[test]
fn bridge_allocates_and_writes() {
    let core = test_core();
    let mut bridge = KtfCBridge::new(core);
    let a = bridge.allocate(0x10).unwrap();
    bridge.write_raw(a, &[1, 2, 3]).unwrap();
    assert_eq!(bridge.core.read_raw(a, 3).unwrap(), vec![1, 2, 3]);
    let stub = bridge.register_function(HostFunction::fixed(9)).unwrap();
    assert_eq!(stub, 0x100);
}

#[test]
fn canvas_from_raw_and_accessors() {
    let c = Canvas::from_raw(2, 2, vec![1, 2, 3, 4]);
    assert_eq!(c.width(), 2);
    assert_eq!(c.height(), 2);
    assert_eq!(c.bytes_per_pixel(), 4);
    assert_eq!(c.buffer(), &[1, 2, 3, 4]);
}

#[test]
fn canvas_draw_copies_rectangle() {
    let mut c = Canvas::from_size(4, 3);
    // A 2x2 source block inside rows of 3 pixels.
    let src = vec![
        9, 9, 9,
        9, 5, 6,
        9, 7, 8,
    ];
    c.draw(1, 1, 2, 2, &src, 1, 1, 3);
    assert_eq!(c.buffer(), &[
        0, 0, 0, 0,
        0, 5, 6, 0,
        0, 7, 8, 0,
    ]);
}

#[test]
fn canvases_handles_are_stable() {
    let mut cs = Canvases::new();
    let h1 = cs.new_canvas(2, 2);
    let h2 = cs.new_canvas(3, 1);
    assert_eq!((h1, h2), (1, 2));
    assert_eq!(cs.canvas(h2).width(), 3);
    cs.destroy(h1);
    // Destroyed handles are not reused.
    let h3 = cs.insert_canvas(Canvas::from_size(1, 1));
    assert_eq!(h3, 3);
    assert_eq!(cs.canvas(h3).height(), 1);
}

#[test]
fn canvas_in_table_can_be_drawn_on() {
    let mut cs = Canvases::new();
    let h = cs.new_canvas(2, 1);
    let src = vec![0xaabbccdd_u32, 0x11223344];
    cs.canvas(h).draw(0, 0, 2, 1, &src, 0, 0, 2);
    assert_eq!(cs.canvas(h).buffer(), &[0xaabbccdd, 0x11223344]);
}

fn tiny_bmp() -> Vec<u8> {
    // A 2x1 24-bit bottom-up BMP: one red pixel, one blue pixel.
    let mut b = Vec::new();
    b.extend_from_slice(b"BM");
    b.extend_from_slice(&62u32.to_le_bytes()); // file size
    b.extend_from_slice(&0u32.to_le_bytes()); // reserved
    b.extend_from_slice(&54u32.to_le_bytes()); // pixel data offset
    b.extend_from_slice(&40u32.to_le_bytes()); // header size
    b.extend_from_slice(&2i32.to_le_bytes()); // width
    b.extend_from_slice(&1i32.to_le_bytes()); // height
    b.extend_from_slice(&1u16.to_le_bytes()); // planes
    b.extend_from_slice(&24u16.to_le_bytes()); // bits per pixel
    b.extend_from_slice(&0u32.to_le_bytes()); // compression
    b.extend_from_slice(&8u32.to_le_bytes()); // image size
    b.extend_from_slice(&0u32.to_le_bytes()); // x pixels per meter
    b.extend_from_slice(&0u32.to_le_bytes()); // y pixels per meter
    b.extend_from_slice(&0u32.to_le_bytes()); // colors used
    b.extend_from_slice(&0u32.to_le_bytes()); // important colors
    b.extend_from_slice(&[0x00, 0x00, 0xff]); // red, as BGR
    b.extend_from_slice(&[0xff, 0x00, 0x00]); // blue, as BGR
    b.extend_from_slice(&[0x00, 0x00]); // row padding
    b
}

#[test]
fn canvas_from_image_decodes_pixels() {
    let c = Canvas::from_image(&tiny_bmp()).unwrap();
    assert_eq!((c.width(), c.height()), (2, 1));
    // RGBA channel bytes packed big-endian.
    assert_eq!(c.buffer(), &[0xff0000ff_u32, 0x0000ffff]);
}

#[test]
fn canvas_from_image_rejects_garbage() {
    match Canvas::from_image(&[1, 2, 3, 4]) {
        Err(e) => assert_eq!(e, EmuError::HostIoFailure),
        Ok(_) => panic!("garbage bytes decoded"),
    }
    let mut cs = Canvases::new();
    assert!(cs.new_canvas_from_image(&[5, 6, 7]).is_err());
    let h = cs.new_canvas_from_image(&tiny_bmp()).unwrap();
    assert_eq!(cs.canvas(h).width(), 2);
}

#[test]
fn runtime_clock_and_sleep() {
    let rt = JvmRuntime::new(1000, 3);
    assert_eq!(rt.now(), 1000);
    assert_eq!(rt.current_task_id(), 3);
    assert_eq!(rt.sleep_deadline(234), 1234);
    assert_eq!(JvmRuntime::new(u64::MAX - 1, 0).sleep_deadline(100), u64::MAX);
    assert_eq!(rt.stdout_written(b"hello"), 5);
}

#[test]
fn memory_file_reads_and_seeks() {
    let mut f = MemoryFile::open(vec![10, 11, 12, 13, 14]);
    assert_eq!(f.size(), 5);
    assert_eq!(f.read(2), vec![10, 11]);
    assert_eq!(f.read(10), vec![12, 13, 14]);
    assert_eq!(f.read(1), Vec::<u8>::new());
    f.seek(3);
    assert_eq!(f.read(1), vec![13]);
}

#[test]
fn class_prototypes_declare_methods() {
    let clip = Clip::as_proto();
    assert_eq!(clip.name, "org/kwis/msp/media/Clip");
    assert_eq!(clip.parent_class.as_deref(), Some("java/lang/Object"));
    assert_eq!(clip.methods.len(), 1);
    assert_eq!(clip.methods[0].name, "<init>");
    assert_eq!(clip.methods[0].descriptor, "(Ljava/lang/String;Ljava/lang/String;)V");

    let thread = Thread::as_proto();
    assert_eq!(thread.name, "java/lang/Thread");
    assert_eq!(thread.methods[0].descriptor, "()V");
    assert_eq!(Thread::init(), Ok(()));

    let db = DataBase::as_proto();
    assert_eq!(db.methods.len(), 6);
    assert_eq!(db.methods[1].name, "openDataBase");
    assert_eq!(db.methods[5].descriptor, "(I)[B");
    assert_eq!(db.fields[0].name, "dbName");

    let hp = HandsetProperty::as_proto();
    assert_eq!(hp.methods[0].name, "getSystemProperty");

    let file = File::as_proto();
    assert_eq!(file.methods.len(), 7);
    assert_eq!(file.methods[2].name, "write");
    assert_eq!(file.fields.len(), 2);

    let vib = Vibrator::as_proto();
    assert_eq!(vib.methods[0].name, "on");
    assert_eq!(vib.methods[0].flag, JavaMethodFlag::Native);

    let exc = InvalidRecordIDException::as_proto();
    assert_eq!(exc.parent_class.as_deref(), Some("javax/microedition/rms/RecordStoreException"));
    assert_eq!(exc.methods.len(), 2);

    let tk = Toolkit::as_proto();
    assert_eq!(tk.methods[0].name, "<clinit>");
    assert_eq!(tk.methods[0].flag, JavaMethodFlag::Static);
    assert_eq!(tk.fields[2].name, "FONT_HEIGHT");
    assert_eq!(tk.fields[2].access, JavaFieldAccessFlag::Static);
}

#[test]
fn window_events_and_colors() {
    assert_eq!(key_event(true, 30), WindowCallbackEvent::Keydown(30));
    assert_eq!(key_event(false, 30), WindowCallbackEvent::Keyup(30));
    assert_eq!(pack_argb(0xff, 0x10, 0x20, 0x30), 0xff102030);
}

#[test]
fn file_initial_data_by_mode() {
    // Write and write-truncate start empty.
    assert_eq!(File::initial_data(2, None), Ok(Vec::new()));
    assert_eq!(File::initial_data(3, Some(vec![9, 9])), Ok(Vec::new()));
    // Read modes take the filesystem bytes.
    assert_eq!(File::initial_data(1, Some(vec![1, 2, 3])), Ok(vec![1, 2, 3]));
    assert_eq!(File::initial_data(4, Some(vec![4])), Ok(vec![4]));
    // A missing file is a host failure.
    assert_eq!(File::initial_data(1, None), Err(EmuError::HostIoFailure));
}

#[test]
fn filesystem_lookup_decisions() {
    // Present path: a file over the bytes, cursor at the start.
    let mut f = MemoryFile::open_found(Some(vec![1, 2, 3])).unwrap();
    assert_eq!(f.size(), 3);
    assert_eq!(f.read(2), vec![1, 2]);
    // Missing path: not found, surfaced as a host failure.
    assert!(matches!(MemoryFile::open_found(None), Err(EmuError::HostIoFailure)));
    assert_eq!(MemoryFile::stat_found(&Some(vec![7; 5])), Ok(5));
    assert!(matches!(MemoryFile::stat_found(&None), Err(EmuError::HostIoFailure)));
}

#[test]
fn boot_fails_with_nonzero_initializer_code() {
    let mut core = test_core();
    core.map(0x4000, 0x1000).unwrap();
    core.map(0x5000, 0x1000).unwrap();
    core.write_raw(0x4000, &program_bytes(&[
        Instr::MovImm { rd: 0, imm: 0x5000 },
        Instr::Bx { rn: 14 },
    ])).unwrap();
    // The module's initializer reports failure code 9.
    core.write_raw(0x4100, &program_bytes(&[
        Instr::MovImm { rd: 0, imm: 9 },
        Instr::Bx { rn: 14 },
    ])).unwrap();
    core.write_raw(0x5000, &words_bytes(&[0x5100, 0, 0, 0, 0, 0x55, 0, 0, 0, 0])).unwrap();
    core.write_raw(0x5100, &words_bytes(&[0x5200, 0, 0, 0, 0, 0, 0, 0])).unwrap();
    core.write_raw(0x5200, &words_bytes(&[0, 0, 0x4100, 0, 0x77, 0, 0])).unwrap();
    let mut sched = Scheduler::new(core, 0);
    let hooks = KtfHooks {
        fn_get_interface: HostFunction::fixed(0),
        fn_java_throw: HostFunction::fixed(0),
        fn_java_new: HostFunction::fixed(0),
        fn_java_array_new: HostFunction::fixed(0),
        fn_java_class_load: HostFunction::fixed(0),
    };
    let r = init(&mut sched, hooks, 0x4000, 0, 100_000);
    assert_eq!(r, Err(InitError::InitFailed { code: 9 }));
}

#[test]
fn boot_propagates_out_of_range_record_read() {
    let mut core = test_core();
    core.map(0x4000, 0x1000).unwrap();
    // The entry hands back a root-record address beyond the address space,
    // so the first record read of the chain must fail and surface.
    core.write_raw(0x4000, &program_bytes(&[
        Instr::MovImm { rd: 0, imm: 0xfffc },
        Instr::MovImm { rd: 1, imm: 0xffff },
        Instr::Add { rd: 0, rn: 0, rm: 1 },
        Instr::Bx { rn: 14 },
    ])).unwrap();
    let mut sched = Scheduler::new(core, 0);
    let hooks = KtfHooks {
        fn_get_interface: HostFunction::fixed(0),
        fn_java_throw: HostFunction::fixed(0),
        fn_java_new: HostFunction::fixed(0),
        fn_java_array_new: HostFunction::fixed(0),
        fn_java_class_load: HostFunction::fixed(0),
    };
    let r = init(&mut sched, hooks, 0x4000, 0, 100_000);
    assert_eq!(r, Err(InitError::Emulation {
        error: EmuError::OutOfBounds { address: 0xfffc + 0xffff, size: 40 },
    }));
}

#[test]
fn boot_is_deterministic_on_identical_state() {
    let build = || {
        let mut core = test_core();
        core.map(0x4000, 0x1000).unwrap();
        core.map(0x5000, 0x1000).unwrap();
        core.write_raw(0x4000, &program_bytes(&[
            Instr::MovImm { rd: 0, imm: 0x5000 },
            Instr::Bx { rn: 14 },
        ])).unwrap();
        core.write_raw(0x4100, &program_bytes(&[
            Instr::MovImm { rd: 0, imm: 0 },
            Instr::Bx { rn: 14 },
        ])).unwrap();
        core.write_raw(0x5000, &words_bytes(&[0x5100, 0, 0, 0, 0, 0x55, 0, 0, 0, 0])).unwrap();
        core.write_raw(0x5100, &words_bytes(&[0x5200, 0, 0, 0, 0, 0, 0, 0])).unwrap();
        core.write_raw(0x5200, &words_bytes(&[0, 0, 0x4100, 0, 0x77, 0, 0])).unwrap();
        Scheduler::new(core, 0)
    };
    let hooks = || KtfHooks {
        fn_get_interface: HostFunction::fixed(0),
        fn_java_throw: HostFunction::fixed(0),
        fn_java_new: HostFunction::fixed(0),
        fn_java_array_new: HostFunction::fixed(0),
        fn_java_class_load: HostFunction::fixed(0),
    };
    let mut s1 = build();
    let mut s2 = build();
    let r1 = init(&mut s1, hooks(), 0x4000, 0, 100_000);
    let r2 = init(&mut s2, hooks(), 0x4000, 0, 100_000);
    assert_eq!(r1, r2);
    // Identical boots leave bit-identical guest memory.
    assert_eq!(
        s1.core.read_raw(0, 0x10000).unwrap(),
        s2.core.read_raw(0, 0x10000).unwrap()
    );
}
