//! The profile record, its schema and the two passes that make one from a
//! document: the structural decode, which reads each field with its type and
//! its default, and the validation, which asks that the fields a profile
//! cannot do without are not empty.

use vstd::prelude::*;
use crate::document::{diagnostic, lookup, parse_document, toml_document, value_content, Node};
use crate::schema::{
    all_pairs, all_texts, flag_or_false, pairs_of, pairs_or_empty, read_flag, read_pairs, read_text,
    read_texts, required_text, section, section_fields, texts_of, texts_or_empty,
};

verus! {

/// Why a text is no profile.
#[derive(Debug)]
pub enum ProfileError {
    /// A field that must not be empty holds the empty string. Names the field.
    MissingField(String),
    /// A field holds a value of another type than the one expected. Names
    /// the field and the type. Parsing does not make this error: a field of
    /// the wrong type is part of the structural decode and is reported as a
    /// [`ProfileError::TomlParseError`].
    InvalidDataType(String, String),
    /// The text could not be decoded: it is not well-formed TOML, or a field
    /// is of the wrong type, or a field without a default is left out. Holds
    /// the decoder's diagnostic.
    TomlParseError(toml::de::Error),
}

/// A [`ProfileError`] as contracts speak of it. A diagnostic stands as its
/// message.
pub enum ProfileFault {
    MissingField(Seq<char>),
    InvalidDataType(Seq<char>, Seq<char>),
    TomlParseError(Seq<char>),
}

impl View for ProfileError {
    type V = ProfileFault;

    open spec fn view(&self) -> ProfileFault {
        match *self {
            ProfileError::MissingField(field) => ProfileFault::MissingField(field@),
            ProfileError::InvalidDataType(field, expected) => ProfileFault::InvalidDataType(
                field@,
                expected@,
            ),
            ProfileError::TomlParseError(error) => ProfileFault::TomlParseError(diagnostic(error)),
        }
    }
}

/// The sandbox policy of one application.
#[derive(Debug)]
pub struct Profile {
    pub app: App,
    pub binary: Binary,
    pub share: Share,
    pub filesystem: Filesystem,
    pub socket: Socket,
    pub devices: Devices,
}

/// The identity of the application.
#[derive(Debug)]
pub struct App {
    pub name: String,
    pub identifier: String,
}

/// What is run inside the sandbox.
#[derive(Debug)]
pub struct Binary {
    pub path: String,
    pub args: Vec<String>,
}

/// The namespaces that the sandbox shares with its host.
#[derive(Debug)]
pub struct Share {
    pub net: bool,
    pub ipc: bool,
}

/// The bind mounts and symbolic links that the sandbox asks for.
#[derive(Debug)]
pub struct Filesystem {
    pub ro_bind: Vec<String>,
    pub rw_bind: Vec<(String, String)>,
    pub symlinks: Vec<(String, String)>,
}

/// The sockets that the sandbox may reach.
#[derive(Debug)]
pub struct Socket {
    pub pipewire: bool,
    pub pulseaudio: bool,
    pub session_bus: bool,
    pub system_bus: bool,
    pub wayland: bool,
}

/// The devices that the sandbox may reach.
#[derive(Debug)]
pub struct Devices {
    pub all: bool,
    pub dri: bool,
    pub kvm: bool,
    pub shm: bool,
}

/// The mathematical value of an [`App`].
pub struct AppView {
    pub name: Seq<char>,
    pub identifier: Seq<char>,
}

/// The mathematical value of a [`Binary`].
pub struct BinaryView {
    pub path: Seq<char>,
    pub args: Seq<Seq<char>>,
}

/// The mathematical value of a [`Filesystem`].
pub struct FilesystemView {
    pub ro_bind: Seq<Seq<char>>,
    pub rw_bind: Seq<(Seq<char>, Seq<char>)>,
    pub symlinks: Seq<(Seq<char>, Seq<char>)>,
}

/// The mathematical value of a [`Profile`]. The three records of booleans
/// stand for themselves.
pub struct ProfileView {
    pub app: AppView,
    pub binary: BinaryView,
    pub share: Share,
    pub filesystem: FilesystemView,
    pub socket: Socket,
    pub devices: Devices,
}

impl ProfileView {
    /// The profile names its application, the application's identifier and
    /// the binary's path: none of the three is empty.
    pub open spec fn is_valid(self) -> bool {
        &&& self.app.name.len() > 0
        &&& self.app.identifier.len() > 0
        &&& self.binary.path.len() > 0
    }
}

impl View for App {
    type V = AppView;

    open spec fn view(&self) -> AppView {
        AppView { name: self.name@, identifier: self.identifier@ }
    }
}

impl View for Binary {
    type V = BinaryView;

    open spec fn view(&self) -> BinaryView {
        BinaryView { path: self.path@, args: self.args.deep_view() }
    }
}

impl View for Filesystem {
    type V = FilesystemView;

    open spec fn view(&self) -> FilesystemView {
        FilesystemView {
            ro_bind: self.ro_bind.deep_view(),
            rw_bind: self.rw_bind.deep_view(),
            symlinks: self.symlinks.deep_view(),
        }
    }
}

impl View for Profile {
    type V = ProfileView;

    open spec fn view(&self) -> ProfileView {
        ProfileView {
            app: self.app@,
            binary: self.binary@,
            share: self.share,
            filesystem: self.filesystem@,
            socket: self.socket,
            devices: self.devices,
        }
    }
}

/// The `[app]` section of a document.
pub open spec fn decoded_app(document: Node) -> Result<AppView, ProfileFault> {
    match section_fields(document, "app"@) {
        Err(fault) => Err(fault),
        Ok(fields) => match required_text(fields, "name"@, "app.name"@) {
            Err(fault) => Err(fault),
            Ok(name) => match required_text(fields, "identifier"@, "app.identifier"@) {
                Err(fault) => Err(fault),
                Ok(identifier) => Ok(AppView { name, identifier }),
            },
        },
    }
}

/// The `[binary]` section of a document.
pub open spec fn decoded_binary(document: Node) -> Result<BinaryView, ProfileFault> {
    match section_fields(document, "binary"@) {
        Err(fault) => Err(fault),
        Ok(fields) => match required_text(fields, "path"@, "binary.path"@) {
            Err(fault) => Err(fault),
            Ok(path) => match texts_or_empty(fields, "args"@, "binary.args"@) {
                Err(fault) => Err(fault),
                Ok(args) => Ok(BinaryView { path, args }),
            },
        },
    }
}

/// The `[share]` section of a document.
pub open spec fn decoded_share(document: Node) -> Result<Share, ProfileFault> {
    match section_fields(document, "share"@) {
        Err(fault) => Err(fault),
        Ok(fields) => match flag_or_false(fields, "net"@, "share.net"@) {
            Err(fault) => Err(fault),
            Ok(net) => match flag_or_false(fields, "ipc"@, "share.ipc"@) {
                Err(fault) => Err(fault),
                Ok(ipc) => Ok(Share { net, ipc }),
            },
        },
    }
}

/// The `[filesystem]` section of a document.
pub open spec fn decoded_filesystem(document: Node) -> Result<FilesystemView, ProfileFault> {
    match section_fields(document, "filesystem"@) {
        Err(fault) => Err(fault),
        Ok(fields) => match texts_or_empty(fields, "ro_bind"@, "filesystem.ro_bind"@) {
            Err(fault) => Err(fault),
            Ok(ro_bind) => match pairs_or_empty(fields, "rw_bind"@, "filesystem.rw_bind"@) {
                Err(fault) => Err(fault),
                Ok(rw_bind) => match pairs_or_empty(fields, "symlinks"@, "filesystem.symlinks"@) {
                    Err(fault) => Err(fault),
                    Ok(symlinks) => Ok(FilesystemView { ro_bind, rw_bind, symlinks }),
                },
            },
        },
    }
}

/// The `[socket]` section of a document.
pub open spec fn decoded_socket(document: Node) -> Result<Socket, ProfileFault> {
    match section_fields(document, "socket"@) {
        Err(fault) => Err(fault),
        Ok(fields) => match flag_or_false(fields, "pipewire"@, "socket.pipewire"@) {
            Err(fault) => Err(fault),
            Ok(pipewire) => match flag_or_false(fields, "pulseaudio"@, "socket.pulseaudio"@) {
                Err(fault) => Err(fault),
                Ok(pulseaudio) => match flag_or_false(
                    fields,
                    "session_bus"@,
                    "socket.session_bus"@,
                ) {
                    Err(fault) => Err(fault),
                    Ok(session_bus) => match flag_or_false(
                        fields,
                        "system_bus"@,
                        "socket.system_bus"@,
                    ) {
                        Err(fault) => Err(fault),
                        Ok(system_bus) => match flag_or_false(
                            fields,
                            "wayland"@,
                            "socket.wayland"@,
                        ) {
                            Err(fault) => Err(fault),
                            Ok(wayland) => Ok(
                                Socket { pipewire, pulseaudio, session_bus, system_bus, wayland },
                            ),
                        },
                    },
                },
            },
        },
    }
}

/// The `[devices]` section of a document.
pub open spec fn decoded_devices(document: Node) -> Result<Devices, ProfileFault> {
    match section_fields(document, "devices"@) {
        Err(fault) => Err(fault),
        Ok(fields) => match flag_or_false(fields, "all"@, "devices.all"@) {
            Err(fault) => Err(fault),
            Ok(all) => match flag_or_false(fields, "dri"@, "devices.dri"@) {
                Err(fault) => Err(fault),
                Ok(dri) => match flag_or_false(fields, "kvm"@, "devices.kvm"@) {
                    Err(fault) => Err(fault),
                    Ok(kvm) => match flag_or_false(fields, "shm"@, "devices.shm"@) {
                        Err(fault) => Err(fault),
                        Ok(shm) => Ok(Devices { all, dri, kvm, shm }),
                    },
                },
            },
        },
    }
}

/// The structural decode of a document: its six sections read in the order
/// of the schema, each field in the order of its section. The first field
/// that cannot be read gives the fault, a parse error that names it.
pub open spec fn decoded(document: Node) -> Result<ProfileView, ProfileFault> {
    match decoded_app(document) {
        Err(fault) => Err(fault),
        Ok(app) => match decoded_binary(document) {
            Err(fault) => Err(fault),
            Ok(binary) => match decoded_share(document) {
                Err(fault) => Err(fault),
                Ok(share) => match decoded_filesystem(document) {
                    Err(fault) => Err(fault),
                    Ok(filesystem) => match decoded_socket(document) {
                        Err(fault) => Err(fault),
                        Ok(socket) => match decoded_devices(document) {
                            Err(fault) => Err(fault),
                            Ok(devices) => Ok(
                                ProfileView { app, binary, share, filesystem, socket, devices },
                            ),
                        },
                    },
                },
            },
        },
    }
}

/// The validation of a decoded profile: the application's name, its
/// identifier and the binary's path, asked in this order, must not be empty.
/// The first that is empty gives the fault.
pub open spec fn validated(profile: ProfileView) -> Result<ProfileView, ProfileFault> {
    if profile.app.name.len() == 0 {
        Err(ProfileFault::MissingField("app.name"@))
    } else if profile.app.identifier.len() == 0 {
        Err(ProfileFault::MissingField("app.identifier"@))
    } else if profile.binary.path.len() == 0 {
        Err(ProfileFault::MissingField("binary.path"@))
    } else {
        Ok(profile)
    }
}

/// What parsing gives for the outcome of reading the text as TOML: the
/// diagnostic of a text that is not well-formed, else the decode, then the
/// validation.
pub open spec fn parsed(document: Result<Node, Seq<char>>) -> Result<ProfileView, ProfileFault> {
    match document {
        Err(message) => Err(ProfileFault::TomlParseError(message)),
        Ok(document) => match decoded(document) {
            Err(fault) => Err(fault),
            Ok(profile) => validated(profile),
        },
    }
}

/// A result as contracts speak of it.
pub open spec fn outcome(result: Result<Profile, ProfileError>) -> Result<
    ProfileView,
    ProfileFault,
> {
    match result {
        Ok(profile) => Ok(profile@),
        Err(error) => Err(error@),
    }
}

impl App {
    fn decode(document: &toml::Value) -> (r: Result<App, ProfileError>)
        ensures
            match r {
                Ok(app) => decoded_app(value_content(*document)) == Ok::<AppView, ProfileFault>(
                    app@,
                ),
                Err(error) => decoded_app(value_content(*document)) == Err::<
                    AppView,
                    ProfileFault,
                >(error@),
            },
    {
        let fields = section(document, "app")?;
        let name = read_text(fields, "name", "app.name")?;
        let identifier = read_text(fields, "identifier", "app.identifier")?;
        Ok(App { name, identifier })
    }
}

impl Binary {
    fn decode(document: &toml::Value) -> (r: Result<Binary, ProfileError>)
        ensures
            match r {
                Ok(binary) => decoded_binary(value_content(*document)) == Ok::<
                    BinaryView,
                    ProfileFault,
                >(binary@),
                Err(error) => decoded_binary(value_content(*document)) == Err::<
                    BinaryView,
                    ProfileFault,
                >(error@),
            },
    {
        let fields = section(document, "binary")?;
        let path = read_text(fields, "path", "binary.path")?;
        let args = read_texts(fields, "args", "binary.args")?;
        Ok(Binary { path, args })
    }
}

impl Share {
    fn decode(document: &toml::Value) -> (r: Result<Share, ProfileError>)
        ensures
            match r {
                Ok(share) => decoded_share(value_content(*document)) == Ok::<Share, ProfileFault>(
                    share,
                ),
                Err(error) => decoded_share(value_content(*document)) == Err::<
                    Share,
                    ProfileFault,
                >(error@),
            },
    {
        let fields = section(document, "share")?;
        let net = read_flag(fields, "net", "share.net")?;
        let ipc = read_flag(fields, "ipc", "share.ipc")?;
        Ok(Share { net, ipc })
    }
}

impl Filesystem {
    fn decode(document: &toml::Value) -> (r: Result<Filesystem, ProfileError>)
        ensures
            match r {
                Ok(filesystem) => decoded_filesystem(value_content(*document)) == Ok::<
                    FilesystemView,
                    ProfileFault,
                >(filesystem@),
                Err(error) => decoded_filesystem(value_content(*document)) == Err::<
                    FilesystemView,
                    ProfileFault,
                >(error@),
            },
    {
        let fields = section(document, "filesystem")?;
        let ro_bind = read_texts(fields, "ro_bind", "filesystem.ro_bind")?;
        let rw_bind = read_pairs(fields, "rw_bind", "filesystem.rw_bind")?;
        let symlinks = read_pairs(fields, "symlinks", "filesystem.symlinks")?;
        Ok(Filesystem { ro_bind, rw_bind, symlinks })
    }
}

impl Socket {
    fn decode(document: &toml::Value) -> (r: Result<Socket, ProfileError>)
        ensures
            match r {
                Ok(socket) => decoded_socket(value_content(*document)) == Ok::<
                    Socket,
                    ProfileFault,
                >(socket),
                Err(error) => decoded_socket(value_content(*document)) == Err::<
                    Socket,
                    ProfileFault,
                >(error@),
            },
    {
        let fields = section(document, "socket")?;
        let pipewire = read_flag(fields, "pipewire", "socket.pipewire")?;
        let pulseaudio = read_flag(fields, "pulseaudio", "socket.pulseaudio")?;
        let session_bus = read_flag(fields, "session_bus", "socket.session_bus")?;
        let system_bus = read_flag(fields, "system_bus", "socket.system_bus")?;
        let wayland = read_flag(fields, "wayland", "socket.wayland")?;
        Ok(Socket { pipewire, pulseaudio, session_bus, system_bus, wayland })
    }
}

impl Devices {
    fn decode(document: &toml::Value) -> (r: Result<Devices, ProfileError>)
        ensures
            match r {
                Ok(devices) => decoded_devices(value_content(*document)) == Ok::<
                    Devices,
                    ProfileFault,
                >(devices),
                Err(error) => decoded_devices(value_content(*document)) == Err::<
                    Devices,
                    ProfileFault,
                >(error@),
            },
    {
        let fields = section(document, "devices")?;
        let all = read_flag(fields, "all", "devices.all")?;
        let dri = read_flag(fields, "dri", "devices.dri")?;
        let kvm = read_flag(fields, "kvm", "devices.kvm")?;
        let shm = read_flag(fields, "shm", "devices.shm")?;
        Ok(Devices { all, dri, kvm, shm })
    }
}

impl Profile {
    /// Decodes a parsed document against the schema. Fields with a default
    /// that the document leaves out take the default. A document that does
    /// not follow the schema is a parse error, whose diagnostic names the
    /// first field of the wrong type or the first absent field without a
    /// default. Whether a string is empty is not asked here.
    pub fn decode(document: &toml::Value) -> (r: Result<Profile, ProfileError>)
        ensures
            outcome(r) == decoded(value_content(*document)),
            r is Ok <==> conforms(value_content(*document)),
            r matches Err(error) ==> error is TomlParseError,
    {
        proof {
            document_decodes_exactly_when_it_conforms(value_content(*document));
        }
        let app = App::decode(document)?;
        let binary = Binary::decode(document)?;
        let share = Share::decode(document)?;
        let filesystem = Filesystem::decode(document)?;
        let socket = Socket::decode(document)?;
        let devices = Devices::decode(document)?;
        Ok(Profile { app, binary, share, filesystem, socket, devices })
    }

    /// Checks a decoded profile: hands it back unchanged where the three
    /// strings that must not be empty are not, and names the first empty one
    /// otherwise.
    pub fn validate(self) -> (r: Result<Profile, ProfileError>)
        ensures
            outcome(r) == validated(self@),
            r is Ok <==> self@.is_valid(),
            r matches Ok(profile) ==> profile == self,
    {
        if self.app.name.as_str().is_empty() {
            return Err(ProfileError::MissingField("app.name".to_owned()));
        }
        if self.app.identifier.as_str().is_empty() {
            return Err(ProfileError::MissingField("app.identifier".to_owned()));
        }
        if self.binary.path.as_str().is_empty() {
            return Err(ProfileError::MissingField("binary.path".to_owned()));
        }
        Ok(self)
    }

    /// Parses the text of a profile: reads it as TOML, decodes the document
    /// and validates the profile. A text that is not well-formed, or whose
    /// document does not follow the schema, is a parse error with the
    /// decoder's diagnostic, whatever strings it leaves empty. A text that
    /// decodes gives the profile, or names the first of the application's
    /// name, its identifier and the binary's path that is empty.
    pub fn from_toml(toml_str: &str) -> (r: Result<Profile, ProfileError>)
        ensures
            outcome(r) == parsed(toml_document(toml_str@)),
            r matches Err(ProfileError::TomlParseError(_)) <==> !follows_schema(
                toml_document(toml_str@),
            ),
            r matches Err(ProfileError::MissingField(_)) <==> follows_schema(
                toml_document(toml_str@),
            ) && !decoded(toml_document(toml_str@)->Ok_0)->Ok_0.is_valid(),
            r matches Ok(profile) ==> profile@.is_valid(),
    {
        proof {
            text_parses_exactly_when_valid(toml_str@);
        }
        match parse_document(toml_str) {
            Err(error) => Err(ProfileError::TomlParseError(error)),
            Ok(document) => match Profile::decode(&document) {
                Err(error) => Err(error),
                Ok(profile) => profile.validate(),
            },
        }
    }
}

/// What a document holds for the field `key` of the section `name`: `None`
/// where it has no such section or the section no such field.
pub open spec fn source(document: Node, name: Seq<char>, key: Seq<char>) -> Option<Node> {
    match lookup(document, name) {
        Some(table) => lookup(table, key),
        None => None,
    }
}

/// The section `name`, where the document has it, is a table.
pub open spec fn section_conforms(document: Node, name: Seq<char>) -> bool {
    lookup(document, name) matches Some(node) ==> node is Table
}

/// The document holds a string for the field.
pub open spec fn text_conforms(document: Node, name: Seq<char>, key: Seq<char>) -> bool {
    source(document, name, key) matches Some(node) && node is Text
}

/// The document leaves the field out or holds a boolean for it.
pub open spec fn flag_conforms(document: Node, name: Seq<char>, key: Seq<char>) -> bool {
    source(document, name, key) matches Some(node) ==> node is Flag
}

/// The document leaves the field out or holds an array of strings for it.
pub open spec fn texts_conform(document: Node, name: Seq<char>, key: Seq<char>) -> bool {
    source(document, name, key) matches Some(node) ==> node matches Node::List(items) && all_texts(
        items,
    )
}

/// The document leaves the field out or holds an array of pairs of strings
/// for it.
pub open spec fn pairs_conform(document: Node, name: Seq<char>, key: Seq<char>) -> bool {
    source(document, name, key) matches Some(node) ==> node matches Node::List(items) && all_pairs(
        items,
    )
}

/// The document follows the schema: each section that it has is a table, the
/// three strings without a default are there, and each other field is left
/// out or of its type.
pub open spec fn conforms(document: Node) -> bool {
    &&& section_conforms(document, "app"@)
    &&& text_conforms(document, "app"@, "name"@)
    &&& text_conforms(document, "app"@, "identifier"@)
    &&& section_conforms(document, "binary"@)
    &&& text_conforms(document, "binary"@, "path"@)
    &&& texts_conform(document, "binary"@, "args"@)
    &&& section_conforms(document, "share"@)
    &&& flag_conforms(document, "share"@, "net"@)
    &&& flag_conforms(document, "share"@, "ipc"@)
    &&& section_conforms(document, "filesystem"@)
    &&& texts_conform(document, "filesystem"@, "ro_bind"@)
    &&& pairs_conform(document, "filesystem"@, "rw_bind"@)
    &&& pairs_conform(document, "filesystem"@, "symlinks"@)
    &&& section_conforms(document, "socket"@)
    &&& flag_conforms(document, "socket"@, "pipewire"@)
    &&& flag_conforms(document, "socket"@, "pulseaudio"@)
    &&& flag_conforms(document, "socket"@, "session_bus"@)
    &&& flag_conforms(document, "socket"@, "system_bus"@)
    &&& flag_conforms(document, "socket"@, "wayland"@)
    &&& section_conforms(document, "devices"@)
    &&& flag_conforms(document, "devices"@, "all"@)
    &&& flag_conforms(document, "devices"@, "dri"@)
    &&& flag_conforms(document, "devices"@, "kvm"@)
    &&& flag_conforms(document, "devices"@, "shm"@)
}

/// The text is well-formed and its document follows the schema.
pub open spec fn follows_schema(document: Result<Node, Seq<char>>) -> bool {
    document matches Ok(document) && conforms(document)
}

/// The document holds a string for the field, and not the empty one.
pub open spec fn text_is_not_empty(document: Node, name: Seq<char>, key: Seq<char>) -> bool {
    source(document, name, key) matches Some(Node::Text(text)) && text.len() > 0
}

/// `value` is the string that the document holds for the field.
pub open spec fn text_is(document: Node, name: Seq<char>, key: Seq<char>, value: Seq<char>) -> bool {
    source(document, name, key) == Some(Node::Text(value))
}

/// `value` is the boolean that the document holds for the field, or `false`
/// where the document leaves the field out.
pub open spec fn flag_is(document: Node, name: Seq<char>, key: Seq<char>, value: bool) -> bool {
    match source(document, name, key) {
        Some(node) => node == Node::Flag(value),
        None => !value,
    }
}

/// `value` is the array of strings that the document holds for the field,
/// item for item, or empty where the document leaves the field out.
pub open spec fn texts_are(
    document: Node,
    name: Seq<char>,
    key: Seq<char>,
    value: Seq<Seq<char>>,
) -> bool {
    match source(document, name, key) {
        Some(node) => node matches Node::List(items) && all_texts(items) && value == texts_of(
            items,
        ),
        None => value == Seq::<Seq<char>>::empty(),
    }
}

/// `value` is the array of pairs that the document holds for the field, item
/// for item, or empty where the document leaves the field out.
pub open spec fn pairs_are(
    document: Node,
    name: Seq<char>,
    key: Seq<char>,
    value: Seq<(Seq<char>, Seq<char>)>,
) -> bool {
    match source(document, name, key) {
        Some(node) => node matches Node::List(items) && all_pairs(items) && value == pairs_of(
            items,
        ),
        None => value == Seq::<(Seq<char>, Seq<char>)>::empty(),
    }
}

/// Every field of the profile is what the document holds for it, and the
/// default where the document holds nothing.
pub open spec fn mirrors(document: Node, profile: ProfileView) -> bool {
    &&& text_is(document, "app"@, "name"@, profile.app.name)
    &&& text_is(document, "app"@, "identifier"@, profile.app.identifier)
    &&& text_is(document, "binary"@, "path"@, profile.binary.path)
    &&& texts_are(document, "binary"@, "args"@, profile.binary.args)
    &&& flag_is(document, "share"@, "net"@, profile.share.net)
    &&& flag_is(document, "share"@, "ipc"@, profile.share.ipc)
    &&& texts_are(document, "filesystem"@, "ro_bind"@, profile.filesystem.ro_bind)
    &&& pairs_are(document, "filesystem"@, "rw_bind"@, profile.filesystem.rw_bind)
    &&& pairs_are(document, "filesystem"@, "symlinks"@, profile.filesystem.symlinks)
    &&& flag_is(document, "socket"@, "pipewire"@, profile.socket.pipewire)
    &&& flag_is(document, "socket"@, "pulseaudio"@, profile.socket.pulseaudio)
    &&& flag_is(document, "socket"@, "session_bus"@, profile.socket.session_bus)
    &&& flag_is(document, "socket"@, "system_bus"@, profile.socket.system_bus)
    &&& flag_is(document, "socket"@, "wayland"@, profile.socket.wayland)
    &&& flag_is(document, "devices"@, "all"@, profile.devices.all)
    &&& flag_is(document, "devices"@, "dri"@, profile.devices.dri)
    &&& flag_is(document, "devices"@, "kvm"@, profile.devices.kvm)
    &&& flag_is(document, "devices"@, "shm"@, profile.devices.shm)
}

/// The profile that a document decodes to holds, field by field, what the
/// document holds, and the default for each field that the document leaves
/// out.
pub proof fn decoded_profile_mirrors_document(document: Node)
    requires
        decoded(document) is Ok,
    ensures
        mirrors(document, decoded(document)->Ok_0),
{
}

/// A document decodes exactly when it follows the schema.
pub proof fn document_decodes_exactly_when_it_conforms(document: Node)
    ensures
        decoded(document) is Ok <==> conforms(document),
{
}

/// Validation accepts exactly the profiles whose three required strings are
/// not empty, and hands an accepted profile back as it was.
pub proof fn validation_accepts_exactly_the_valid(profile: ProfileView)
    ensures
        validated(profile) is Ok <==> profile.is_valid(),
        validated(profile) matches Ok(same) ==> same == profile,
{
}

/// The three outcomes of parsing, each with the texts on which it comes. A
/// text that is not well-formed, or whose document does not follow the
/// schema, is a parse error. A text that decodes with an empty name,
/// identifier or binary path is a missing field, the first of the three that
/// is empty. Every other text gives the profile.
pub proof fn text_parses_exactly_when_valid(text: Seq<char>)
    ensures
        parsed(toml_document(text)) matches Err(ProfileFault::TomlParseError(_))
            <==> !follows_schema(toml_document(text)),
        parsed(toml_document(text)) matches Err(ProfileFault::MissingField(_)) <==> follows_schema(
            toml_document(text),
        ) && !decoded(toml_document(text)->Ok_0)->Ok_0.is_valid(),
        parsed(toml_document(text)) is Ok <==> follows_schema(toml_document(text)) && decoded(
            toml_document(text)->Ok_0,
        )->Ok_0.is_valid(),
        !(parsed(toml_document(text)) matches Err(ProfileFault::InvalidDataType(_, _))),
        parsed(toml_document(text)) matches Ok(profile) ==> profile.is_valid(),
        follows_schema(toml_document(text)) ==> (decoded(toml_document(text)->Ok_0)->Ok_0.is_valid()
            <==> text_is_not_empty(toml_document(text)->Ok_0, "app"@, "name"@)
            && text_is_not_empty(toml_document(text)->Ok_0, "app"@, "identifier"@)
            && text_is_not_empty(toml_document(text)->Ok_0, "binary"@, "path"@)),
{
    if toml_document(text) is Ok {
        let document = toml_document(text)->Ok_0;
        document_decodes_exactly_when_it_conforms(document);
        if decoded(document) is Ok {
            decoded_profile_mirrors_document(document);
        }
    }
}

/// A text whose document follows the schema, with a name, an identifier and
/// a binary path that are not empty, parses, and the profile holds the
/// values of the text, field by field.
pub proof fn conforming_text_round_trips(text: Seq<char>)
    requires
        follows_schema(toml_document(text)),
        text_is_not_empty(toml_document(text)->Ok_0, "app"@, "name"@),
        text_is_not_empty(toml_document(text)->Ok_0, "app"@, "identifier"@),
        text_is_not_empty(toml_document(text)->Ok_0, "binary"@, "path"@),
    ensures
        parsed(toml_document(text)) matches Ok(profile) && mirrors(
            toml_document(text)->Ok_0,
            profile,
        ),
{
    text_parses_exactly_when_valid(text);
    decoded_profile_mirrors_document(toml_document(text)->Ok_0);
}

/// A section that a document leaves out leaves out each of its fields.
pub proof fn omitted_section_omits_its_fields(document: Node, name: Seq<char>, key: Seq<char>)
    requires
        lookup(document, name) is None,
    ensures
        source(document, name, key) is None,
{
}

/// In a profile that parsed, each boolean that the text leaves out is
/// `false` and each array that it leaves out is empty.
pub proof fn omitted_fields_take_defaults(text: Seq<char>)
    requires
        parsed(toml_document(text)) is Ok,
    ensures
        ({
            let document = toml_document(text)->Ok_0;
            let profile = parsed(toml_document(text))->Ok_0;
            &&& source(document, "binary"@, "args"@) is None ==> profile.binary.args.len() == 0
            &&& source(document, "share"@, "net"@) is None ==> !profile.share.net
            &&& source(document, "share"@, "ipc"@) is None ==> !profile.share.ipc
            &&& source(document, "filesystem"@, "ro_bind"@) is None
                ==> profile.filesystem.ro_bind.len() == 0
            &&& source(document, "filesystem"@, "rw_bind"@) is None
                ==> profile.filesystem.rw_bind.len() == 0
            &&& source(document, "filesystem"@, "symlinks"@) is None
                ==> profile.filesystem.symlinks.len() == 0
            &&& source(document, "socket"@, "pipewire"@) is None ==> !profile.socket.pipewire
            &&& source(document, "socket"@, "pulseaudio"@) is None ==> !profile.socket.pulseaudio
            &&& source(document, "socket"@, "session_bus"@) is None ==> !profile.socket.session_bus
            &&& source(document, "socket"@, "system_bus"@) is None ==> !profile.socket.system_bus
            &&& source(document, "socket"@, "wayland"@) is None ==> !profile.socket.wayland
            &&& source(document, "devices"@, "all"@) is None ==> !profile.devices.all
            &&& source(document, "devices"@, "dri"@) is None ==> !profile.devices.dri
            &&& source(document, "devices"@, "kvm"@) is None ==> !profile.devices.kvm
            &&& source(document, "devices"@, "shm"@) is None ==> !profile.devices.shm
        }),
{
    decoded_profile_mirrors_document(toml_document(text)->Ok_0);
}

/// An empty application name is the fault that parsing reports, whatever
/// the identifier and the binary path hold.
pub proof fn empty_name_is_reported_first(text: Seq<char>)
    requires
        follows_schema(toml_document(text)),
        text_is(toml_document(text)->Ok_0, "app"@, "name"@, Seq::empty()),
    ensures
        parsed(toml_document(text)) == Err::<ProfileView, ProfileFault>(
            ProfileFault::MissingField("app.name"@),
        ),
{
    let document = toml_document(text)->Ok_0;
    document_decodes_exactly_when_it_conforms(document);
    decoded_profile_mirrors_document(document);
}

/// A text that is not well-formed TOML is a parse error with the message
/// that the parser gave: no field is decoded and none validated.
pub proof fn malformed_text_is_a_parse_error(text: Seq<char>)
    requires
        toml_document(text) is Err,
    ensures
        parsed(toml_document(text)) == Err::<ProfileView, ProfileFault>(
            ProfileFault::TomlParseError(toml_document(text)->Err_0),
        ),
{
}

/// The two passes fail apart: decoding reports only parse errors, and
/// validation only empty fields.
pub proof fn passes_fail_apart(document: Node, profile: ProfileView)
    ensures
        decoded(document) matches Err(fault) ==> fault is TomlParseError,
        validated(profile) matches Err(fault) ==> fault is MissingField,
{
}

} // verus!
