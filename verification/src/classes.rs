//! Class prototypes of the bundled Java-like runtime.
//!
//! A prototype is plain data: the class name, its parent, and the names,
//! descriptors and flags of its methods and fields, exactly as the guest
//! runtime looks them up.  The method bodies themselves are host glue
//! around the core and stay outside it; the prototypes pin down what each
//! class declares.

use vstd::prelude::*;
use crate::error::EmuError;

verus! {

/// How a method is dispatched.
#[derive(Clone, Copy, Debug, PartialEq, Eq, Structural)]
pub enum JavaMethodFlag {
    Normal,
    Native,
    Static,
}

/// How a field is stored.
#[derive(Clone, Copy, Debug, PartialEq, Eq, Structural)]
pub enum JavaFieldAccessFlag {
    Normal,
    Static,
}

/// One declared method: name, type descriptor, dispatch flag.
pub struct JavaMethodProto {
    pub name: String,
    pub descriptor: String,
    pub flag: JavaMethodFlag,
}

impl JavaMethodProto {
    /// A method prototype with the given name and descriptor.
    pub fn new(name: &str, descriptor: &str, flag: JavaMethodFlag) -> (r: JavaMethodProto)
        ensures
            r.name@ == name@,
            r.descriptor@ == descriptor@,
            r.flag == flag,
    {
        JavaMethodProto { name: name.to_owned(), descriptor: descriptor.to_owned(), flag }
    }
}

/// One declared field: name, type descriptor, storage flag.
pub struct JavaFieldProto {
    pub name: String,
    pub descriptor: String,
    pub access: JavaFieldAccessFlag,
}

impl JavaFieldProto {
    /// A field prototype with the given name and descriptor.
    pub fn new(name: &str, descriptor: &str, access: JavaFieldAccessFlag) -> (r: JavaFieldProto)
        ensures
            r.name@ == name@,
            r.descriptor@ == descriptor@,
            r.access == access,
    {
        JavaFieldProto { name: name.to_owned(), descriptor: descriptor.to_owned(), access }
    }
}

/// One class: its name, parent, interfaces, methods and fields.
pub struct JavaClassProto {
    pub name: String,
    pub parent_class: Option<String>,
    pub interfaces: Vec<String>,
    pub methods: Vec<JavaMethodProto>,
    pub fields: Vec<JavaFieldProto>,
}

/// A method entry matches a name, a descriptor and a flag.
pub open spec fn method_is(m: JavaMethodProto, name: Seq<char>, descriptor: Seq<char>,
    flag: JavaMethodFlag) -> bool {
    m.name@ == name && m.descriptor@ == descriptor && m.flag == flag
}

/// A field entry matches a name, a descriptor and a flag.
pub open spec fn field_is(f: JavaFieldProto, name: Seq<char>, descriptor: Seq<char>,
    access: JavaFieldAccessFlag) -> bool {
    f.name@ == name && f.descriptor@ == descriptor && f.access == access
}

/// class org.kwis.msp.media.Clip
pub struct Clip {}

impl Clip {
    /// The class prototype: one constructor taking the clip type and the
    /// resource name.
    pub fn as_proto() -> (r: JavaClassProto)
        ensures
            r.name@ == "org/kwis/msp/media/Clip"@,
            r.parent_class matches Some(p) && p@ == "java/lang/Object"@,
            r.interfaces@.len() == 0,
            r.fields@.len() == 0,
            r.methods@.len() == 1,
            method_is(r.methods@[0], "<init>"@,
                "(Ljava/lang/String;Ljava/lang/String;)V"@, JavaMethodFlag::Normal),
    {
        let mut methods: Vec<JavaMethodProto> = Vec::new();
        methods.push(JavaMethodProto::new(
            "<init>",
            "(Ljava/lang/String;Ljava/lang/String;)V",
            JavaMethodFlag::Normal,
        ));
        JavaClassProto {
            name: "org/kwis/msp/media/Clip".to_owned(),
            parent_class: Some("java/lang/Object".to_owned()),
            interfaces: Vec::new(),
            methods,
            fields: Vec::new(),
        }
    }
}

/// class java.lang.Thread
pub struct Thread {}

impl Thread {
    /// The class prototype: one no-argument constructor.
    pub fn as_proto() -> (r: JavaClassProto)
        ensures
            r.name@ == "java/lang/Thread"@,
            r.parent_class matches Some(p) && p@ == "java/lang/Object"@,
            r.interfaces@.len() == 0,
            r.fields@.len() == 0,
            r.methods@.len() == 1,
            method_is(r.methods@[0], "<init>"@, "()V"@, JavaMethodFlag::Normal),
    {
        let mut methods: Vec<JavaMethodProto> = Vec::new();
        methods.push(JavaMethodProto::new("<init>", "()V", JavaMethodFlag::Normal));
        JavaClassProto {
            name: "java/lang/Thread".to_owned(),
            parent_class: Some("java/lang/Object".to_owned()),
            interfaces: Vec::new(),
            methods,
            fields: Vec::new(),
        }
    }

    /// The constructor's effect: nothing but success.
    pub fn init() -> (r: Result<(), EmuError>)
        ensures
            r == Ok::<(), EmuError>(()),
    {
        Ok(())
    }
}

/// class org.kwis.msp.db.DataBase
pub struct DataBase {}

impl DataBase {
    /// The class prototype: the record-store methods and the name field.
    pub fn as_proto() -> (r: JavaClassProto)
        ensures
            r.name@ == "org/kwis/msp/db/DataBase"@,
            r.parent_class matches Some(p) && p@ == "java/lang/Object"@,
            r.interfaces@.len() == 0,
            r.methods@.len() == 6,
            method_is(r.methods@[0], "<init>"@, "()V"@, JavaMethodFlag::Normal),
            method_is(r.methods@[1], "openDataBase"@,
                "(Ljava/lang/String;IZ)Lorg/kwis/msp/db/DataBase;"@, JavaMethodFlag::Normal),
            method_is(r.methods@[2], "getNumberOfRecords"@, "()I"@, JavaMethodFlag::Normal),
            method_is(r.methods@[3], "closeDataBase"@, "()V"@, JavaMethodFlag::Normal),
            method_is(r.methods@[4], "insertRecord"@, "([BII)I"@, JavaMethodFlag::Normal),
            method_is(r.methods@[5], "selectRecord"@, "(I)[B"@, JavaMethodFlag::Normal),
            r.fields@.len() == 1,
            field_is(r.fields@[0], "dbName"@, "Ljava/lang/String;"@,
                JavaFieldAccessFlag::Normal),
    {
        let mut methods: Vec<JavaMethodProto> = Vec::new();
        methods.push(JavaMethodProto::new("<init>", "()V", JavaMethodFlag::Normal));
        methods.push(JavaMethodProto::new(
            "openDataBase",
            "(Ljava/lang/String;IZ)Lorg/kwis/msp/db/DataBase;",
            JavaMethodFlag::Normal,
        ));
        methods.push(JavaMethodProto::new("getNumberOfRecords", "()I", JavaMethodFlag::Normal));
        methods.push(JavaMethodProto::new("closeDataBase", "()V", JavaMethodFlag::Normal));
        methods.push(JavaMethodProto::new("insertRecord", "([BII)I", JavaMethodFlag::Normal));
        methods.push(JavaMethodProto::new("selectRecord", "(I)[B", JavaMethodFlag::Normal));
        let mut fields: Vec<JavaFieldProto> = Vec::new();
        fields.push(JavaFieldProto::new(
            "dbName",
            "Ljava/lang/String;",
            JavaFieldAccessFlag::Normal,
        ));
        JavaClassProto {
            name: "org/kwis/msp/db/DataBase".to_owned(),
            parent_class: Some("java/lang/Object".to_owned()),
            interfaces: Vec::new(),
            methods,
            fields,
        }
    }
}

/// class org.kwis.msp.handset.HandsetProperty
pub struct HandsetProperty {}

impl HandsetProperty {
    /// The class prototype: the system-property lookup.
    pub fn as_proto() -> (r: JavaClassProto)
        ensures
            r.name@ == "org/kwis/msp/handset/HandsetProperty"@,
            r.parent_class matches Some(p) && p@ == "java/lang/Object"@,
            r.interfaces@.len() == 0,
            r.fields@.len() == 0,
            r.methods@.len() == 1,
            method_is(r.methods@[0], "getSystemProperty"@,
                "(Ljava/lang/String;)Ljava/lang/String;"@, JavaMethodFlag::Normal),
    {
        let mut methods: Vec<JavaMethodProto> = Vec::new();
        methods.push(JavaMethodProto::new(
            "getSystemProperty",
            "(Ljava/lang/String;)Ljava/lang/String;",
            JavaMethodFlag::Normal,
        ));
        JavaClassProto {
            name: "org/kwis/msp/handset/HandsetProperty".to_owned(),
            parent_class: Some("java/lang/Object".to_owned()),
            interfaces: Vec::new(),
            methods,
            fields: Vec::new(),
        }
    }
}

/// class org.kwis.msp.io.File
pub struct File {}

impl File {
    /// The class prototype: the file methods and the buffer and cursor
    /// fields.
    pub fn as_proto() -> (r: JavaClassProto)
        ensures
            r.name@ == "org/kwis/msp/io/File"@,
            r.parent_class matches Some(p) && p@ == "java/lang/Object"@,
            r.interfaces@.len() == 0,
            r.methods@.len() == 7,
            method_is(r.methods@[0], "<init>"@, "(Ljava/lang/String;I)V"@,
                JavaMethodFlag::Normal),
            method_is(r.methods@[1], "<init>"@, "(Ljava/lang/String;II)V"@,
                JavaMethodFlag::Normal),
            method_is(r.methods@[2], "write"@, "([BII)I"@, JavaMethodFlag::Normal),
            method_is(r.methods@[3], "read"@, "([B)I"@, JavaMethodFlag::Normal),
            method_is(r.methods@[4], "seek"@, "(I)V"@, JavaMethodFlag::Normal),
            method_is(r.methods@[5], "close"@, "()V"@, JavaMethodFlag::Normal),
            method_is(r.methods@[6], "sizeOf"@, "()I"@, JavaMethodFlag::Normal),
            r.fields@.len() == 2,
            field_is(r.fields@[0], "data"@, "[B"@, JavaFieldAccessFlag::Normal),
            field_is(r.fields@[1], "pos"@, "I"@, JavaFieldAccessFlag::Normal),
    {
        let mut methods: Vec<JavaMethodProto> = Vec::new();
        methods.push(JavaMethodProto::new("<init>", "(Ljava/lang/String;I)V",
            JavaMethodFlag::Normal));
        methods.push(JavaMethodProto::new("<init>", "(Ljava/lang/String;II)V",
            JavaMethodFlag::Normal));
        methods.push(JavaMethodProto::new("write", "([BII)I", JavaMethodFlag::Normal));
        methods.push(JavaMethodProto::new("read", "([B)I", JavaMethodFlag::Normal));
        methods.push(JavaMethodProto::new("seek", "(I)V", JavaMethodFlag::Normal));
        methods.push(JavaMethodProto::new("close", "()V", JavaMethodFlag::Normal));
        methods.push(JavaMethodProto::new("sizeOf", "()I", JavaMethodFlag::Normal));
        let mut fields: Vec<JavaFieldProto> = Vec::new();
        fields.push(JavaFieldProto::new("data", "[B", JavaFieldAccessFlag::Normal));
        fields.push(JavaFieldProto::new("pos", "I", JavaFieldAccessFlag::Normal));
        JavaClassProto {
            name: "org/kwis/msp/io/File".to_owned(),
            parent_class: Some("java/lang/Object".to_owned()),
            interfaces: Vec::new(),
            methods,
            fields,
        }
    }
}

impl File {
    /// What a freshly opened file's buffer holds, by the platform's open
    /// mode constants: the write modes (`2` and `3`) start empty, the read
    /// modes take the bytes the filesystem handed over, and a file the
    /// filesystem does not have is a host collaborator failure.
    pub fn initial_data(mode: i32, contents: Option<Vec<u8>>) -> (r: Result<Vec<u8>, EmuError>)
        ensures
            mode == 2 || mode == 3 ==> (r matches Ok(d) && d@ == Seq::<u8>::empty()),
            !(mode == 2 || mode == 3) ==> match (r, contents) {
                (Ok(d), Some(c)) => d == c,
                (Err(e), None) => e == EmuError::HostIoFailure,
                _ => false,
            },
    {
        if mode == 2 || mode == 3 {
            let d: Vec<u8> = Vec::new();
            proof {
                assert(d@ =~= Seq::<u8>::empty());
            }
            Ok(d)
        } else {
            match contents {
                Some(c) => Ok(c),
                None => Err(EmuError::HostIoFailure),
            }
        }
    }
}

/// class org.kwis.msp.media.Vibrator
pub struct Vibrator {}

impl Vibrator {
    /// The class prototype: the native vibration trigger.
    pub fn as_proto() -> (r: JavaClassProto)
        ensures
            r.name@ == "org/kwis/msp/media/Vibrator"@,
            r.parent_class matches Some(p) && p@ == "java/lang/Object"@,
            r.interfaces@.len() == 0,
            r.fields@.len() == 0,
            r.methods@.len() == 1,
            method_is(r.methods@[0], "on"@, "(II)V"@, JavaMethodFlag::Native),
    {
        let mut methods: Vec<JavaMethodProto> = Vec::new();
        methods.push(JavaMethodProto::new("on", "(II)V", JavaMethodFlag::Native));
        JavaClassProto {
            name: "org/kwis/msp/media/Vibrator".to_owned(),
            parent_class: Some("java/lang/Object".to_owned()),
            interfaces: Vec::new(),
            methods,
            fields: Vec::new(),
        }
    }
}

/// class javax.microedition.rms.InvalidRecordIDException
pub struct InvalidRecordIDException {}

impl InvalidRecordIDException {
    /// The class prototype: the two exception constructors.
    pub fn as_proto() -> (r: JavaClassProto)
        ensures
            r.name@ == "javax/microedition/rms/InvalidRecordIDException"@,
            r.parent_class matches Some(p)
                && p@ == "javax/microedition/rms/RecordStoreException"@,
            r.interfaces@.len() == 0,
            r.fields@.len() == 0,
            r.methods@.len() == 2,
            method_is(r.methods@[0], "<init>"@, "()V"@, JavaMethodFlag::Normal),
            method_is(r.methods@[1], "<init>"@, "(Ljava/lang/String;)V"@,
                JavaMethodFlag::Normal),
    {
        let mut methods: Vec<JavaMethodProto> = Vec::new();
        methods.push(JavaMethodProto::new("<init>", "()V", JavaMethodFlag::Normal));
        methods.push(JavaMethodProto::new("<init>", "(Ljava/lang/String;)V",
            JavaMethodFlag::Normal));
        JavaClassProto {
            name: "javax/microedition/rms/InvalidRecordIDException".to_owned(),
            parent_class: Some("javax/microedition/rms/RecordStoreException".to_owned()),
            interfaces: Vec::new(),
            methods,
            fields: Vec::new(),
        }
    }
}

/// class com.xce.lcdui.Toolkit
pub struct Toolkit {}

impl Toolkit {
    /// The class prototype: the static class initializer and the static
    /// toolkit fields.
    pub fn as_proto() -> (r: JavaClassProto)
        ensures
            r.name@ == "com/xce/lcdui/Toolkit"@,
            r.parent_class matches Some(p) && p@ == "java/lang/Object"@,
            r.interfaces@.len() == 0,
            r.methods@.len() == 1,
            method_is(r.methods@[0], "<clinit>"@, "()V"@, JavaMethodFlag::Static),
            r.fields@.len() == 3,
            field_is(r.fields@[0], "graphics"@, "Ljavax/microedition/lcdui/Graphics;"@,
                JavaFieldAccessFlag::Static),
            field_is(r.fields@[1], "DEFAULT_FONT"@, "Ljavax/microedition/lcdui/Font;"@,
                JavaFieldAccessFlag::Static),
            field_is(r.fields@[2], "FONT_HEIGHT"@, "I"@, JavaFieldAccessFlag::Static),
    {
        let mut methods: Vec<JavaMethodProto> = Vec::new();
        methods.push(JavaMethodProto::new("<clinit>", "()V", JavaMethodFlag::Static));
        let mut fields: Vec<JavaFieldProto> = Vec::new();
        fields.push(JavaFieldProto::new("graphics", "Ljavax/microedition/lcdui/Graphics;",
            JavaFieldAccessFlag::Static));
        fields.push(JavaFieldProto::new("DEFAULT_FONT", "Ljavax/microedition/lcdui/Font;",
            JavaFieldAccessFlag::Static));
        fields.push(JavaFieldProto::new("FONT_HEIGHT", "I", JavaFieldAccessFlag::Static));
        JavaClassProto {
            name: "com/xce/lcdui/Toolkit".to_owned(),
            parent_class: Some("java/lang/Object".to_owned()),
            interfaces: Vec::new(),
            methods,
            fields,
        }
    }
}

} // verus!
