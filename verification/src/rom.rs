//! The cartridge: a ROM image, the bank controller its header names, and
//! the header fields the machine consults.

use vstd::prelude::*;
use vstd::string::*;
use crate::mbc::mbc0::MBC0;
use crate::mbc::mbc1::{Mbc1Model, MBC1};
use crate::mbc::mbc3::{Mbc3Model, MBC3};
use crate::mbc::mbc5::{Mbc5Model, MBC5};
use crate::mbc::{spec_rom_byte, MemoryController};
use crate::header::{
    cart_type_text, cgb_flag_text, destination_text, ram_size_text, rom_size_text, sgb_flag_text,
    spec_cart_type_text, spec_cgb_flag_text, spec_destination_text, spec_ram_size_text,
    spec_rom_size_text, spec_sgb_flag_text,
};
use crate::text::{hex_byte, push_char, push_hex_byte};

verus! {

/// Where the header keeps the title.
pub const TITLE_START: usize = 0x134;

/// Longest title, in bytes.
pub const TITLE_LENGTH: usize = 15;

/// Where the header says whether the game knows the colour console.
pub const CGB_FLAG: u16 = 0x143;

/// Where the header says whether the game knows the television adapter.
pub const SGB_FLAG: u16 = 0x146;

/// Where the header names the bank controller.
pub const CARTRIDGE_TYPE: u16 = 0x147;

/// Where the header gives the size of the ROM.
pub const ROM_SIZE: u16 = 0x148;

/// Where the header gives the size of the external RAM.
pub const RAM_SIZE: u16 = 0x149;

/// Where the header names the market the game was made for.
pub const DESTINATION: u16 = 0x14A;

/// Why an image cannot be used as a cartridge.
#[derive(Clone, Copy, Debug, PartialEq, Eq, Structural)]
pub enum RomError {
    /// The image ends before the header byte that names the bank controller.
    Truncated,
    /// The header names a bank controller that is not supported.
    UnsupportedType(u8),
}

/// The kinds of bank controller.
#[derive(Clone, Copy, Debug, PartialEq, Eq, Structural)]
pub enum ControllerKind {
    Mbc0,
    Mbc1,
    Mbc3,
    Mbc5,
}

/// The bank controller that goes with a cartridge type byte, if it is one
/// of the supported ones.
pub open spec fn spec_controller_kind(cart_type: u8) -> Option<ControllerKind> {
    if cart_type == 0x00 {
        Some(ControllerKind::Mbc0)
    } else if 0x01 <= cart_type <= 0x03 {
        Some(ControllerKind::Mbc1)
    } else if 0x0F <= cart_type <= 0x13 {
        Some(ControllerKind::Mbc3)
    } else if 0x19 <= cart_type <= 0x1E {
        Some(ControllerKind::Mbc5)
    } else {
        None
    }
}

#[verifier::when_used_as_spec(spec_controller_kind)]
pub fn controller_kind(cart_type: u8) -> (kind: Option<ControllerKind>)
    ensures
        kind == spec_controller_kind(cart_type),
{
    if cart_type == 0x00 {
        Some(ControllerKind::Mbc0)
    } else if 0x01 <= cart_type && cart_type <= 0x03 {
        Some(ControllerKind::Mbc1)
    } else if 0x0F <= cart_type && cart_type <= 0x13 {
        Some(ControllerKind::Mbc3)
    } else if 0x19 <= cart_type && cart_type <= 0x1E {
        Some(ControllerKind::Mbc5)
    } else {
        None
    }
}

/// A bank controller of one of the supported kinds.
pub enum Controller {
    Mbc0(MBC0),
    Mbc1(MBC1),
    Mbc3(MBC3),
    Mbc5(MBC5),
}

/// The state of a bank controller.
pub enum ControllerModel {
    Mbc0,
    Mbc1(Mbc1Model),
    Mbc3(Mbc3Model),
    Mbc5(Mbc5Model),
}

impl ControllerModel {
    pub open spec fn wf(self) -> bool {
        match self {
            ControllerModel::Mbc0 => true,
            ControllerModel::Mbc1(m) => m.wf(),
            ControllerModel::Mbc3(m) => m.wf(),
            ControllerModel::Mbc5(m) => m.wf(),
        }
    }

    /// A controller of the given kind as it powers up.
    pub open spec fn initial(kind: ControllerKind) -> ControllerModel {
        match kind {
            ControllerKind::Mbc0 => ControllerModel::Mbc0,
            ControllerKind::Mbc1 => ControllerModel::Mbc1(Mbc1Model::initial()),
            ControllerKind::Mbc3 => ControllerModel::Mbc3(Mbc3Model::initial()),
            ControllerKind::Mbc5 => ControllerModel::Mbc5(Mbc5Model::initial()),
        }
    }

    pub open spec fn read(self, rom: Seq<u8>, address: u16) -> u8 {
        match self {
            ControllerModel::Mbc0 => MBC0::spec_read(rom, address),
            ControllerModel::Mbc1(m) => m.read(rom, address),
            ControllerModel::Mbc3(m) => m.read(rom, address),
            ControllerModel::Mbc5(m) => m.read(rom, address),
        }
    }

    pub open spec fn write(self, address: u16, data: u8) -> ControllerModel {
        match self {
            ControllerModel::Mbc0 => ControllerModel::Mbc0,
            ControllerModel::Mbc1(m) => ControllerModel::Mbc1(m.write(address, data)),
            ControllerModel::Mbc3(m) => ControllerModel::Mbc3(m.write(address, data)),
            ControllerModel::Mbc5(m) => ControllerModel::Mbc5(m.write(address, data)),
        }
    }

    /// The external RAM; empty where the cartridge has none.
    pub open spec fn eram(self) -> Seq<u8> {
        match self {
            ControllerModel::Mbc0 => Seq::empty(),
            ControllerModel::Mbc1(m) => m.eram,
            ControllerModel::Mbc3(m) => m.eram,
            ControllerModel::Mbc5(m) => m.eram,
        }
    }

    /// The controller with its external RAM replaced by `data`.
    pub open spec fn with_eram(self, data: Seq<u8>) -> ControllerModel {
        match self {
            ControllerModel::Mbc0 => ControllerModel::Mbc0,
            ControllerModel::Mbc1(m) => ControllerModel::Mbc1(Mbc1Model { eram: data, ..m }),
            ControllerModel::Mbc3(m) => ControllerModel::Mbc3(Mbc3Model { eram: data, ..m }),
            ControllerModel::Mbc5(m) => ControllerModel::Mbc5(Mbc5Model { eram: data, ..m }),
        }
    }
}

impl View for Controller {
    type V = ControllerModel;

    open spec fn view(&self) -> ControllerModel {
        match self {
            Controller::Mbc0(_) => ControllerModel::Mbc0,
            Controller::Mbc1(mbc) => ControllerModel::Mbc1(mbc@),
            Controller::Mbc3(mbc) => ControllerModel::Mbc3(mbc@),
            Controller::Mbc5(mbc) => ControllerModel::Mbc5(mbc@),
        }
    }
}

impl Controller {
    /// A controller of the given kind as it powers up.
    pub fn new(kind: ControllerKind) -> (controller: Controller)
        ensures
            controller@ == ControllerModel::initial(kind),
    {
        match kind {
            ControllerKind::Mbc0 => Controller::Mbc0(MBC0),
            ControllerKind::Mbc1 => Controller::Mbc1(MBC1::new()),
            ControllerKind::Mbc3 => Controller::Mbc3(MBC3::new()),
            ControllerKind::Mbc5 => Controller::Mbc5(MBC5::new()),
        }
    }

    pub fn read(&self, bytes: &Vec<u8>, address: u16) -> (value: u8)
        ensures
            value == self@.read(bytes@, address),
            self@.wf(),
    {
        match self {
            Controller::Mbc0(mbc) => mbc.read(bytes, address),
            Controller::Mbc1(mbc) => {
                proof {
                    use_type_invariant(mbc);
                }
                mbc.read(bytes, address)
            },
            Controller::Mbc3(mbc) => {
                proof {
                    use_type_invariant(mbc);
                }
                mbc.read(bytes, address)
            },
            Controller::Mbc5(mbc) => {
                proof {
                    use_type_invariant(mbc);
                }
                mbc.read(bytes, address)
            },
        }
    }

    pub fn write(&mut self, address: u16, data: u8)
        ensures
            final(self)@ == old(self)@.write(address, data),
            final(self)@.wf(),
    {
        match self {
            Controller::Mbc0(mbc) => mbc.write(address, data),
            Controller::Mbc1(mbc) => {
                mbc.write(address, data);
                proof {
                    use_type_invariant(&*mbc);
                }
            },
            Controller::Mbc3(mbc) => {
                mbc.write(address, data);
                proof {
                    use_type_invariant(&*mbc);
                }
            },
            Controller::Mbc5(mbc) => {
                mbc.write(address, data);
                proof {
                    use_type_invariant(&*mbc);
                }
            },
        }
    }

    /// Hands out the external RAM for saving.
    pub fn persist(&self) -> (data: Vec<u8>)
        ensures
            data@ == self@.eram(),
    {
        match self {
            Controller::Mbc0(mbc) => mbc.persist(),
            Controller::Mbc1(mbc) => mbc.persist(),
            Controller::Mbc3(mbc) => mbc.persist(),
            Controller::Mbc5(mbc) => mbc.persist(),
        }
    }

    /// Takes over saved external RAM, if `data` has the size of the external
    /// RAM; says whether it did.
    pub fn restore(&mut self, data: &Vec<u8>) -> (taken: bool)
        ensures
            taken == (data@.len() == old(self)@.eram().len()),
            final(self)@ == if taken {
                old(self)@.with_eram(data@)
            } else {
                old(self)@
            },
            final(self)@.wf(),
    {
        match self {
            Controller::Mbc0(mbc) => mbc.restore(data),
            Controller::Mbc1(mbc) => {
                let taken = mbc.restore(data);
                proof {
                    use_type_invariant(&*mbc);
                }
                taken
            },
            Controller::Mbc3(mbc) => {
                let taken = mbc.restore(data);
                proof {
                    use_type_invariant(&*mbc);
                }
                taken
            },
            Controller::Mbc5(mbc) => {
                let taken = mbc.restore(data);
                proof {
                    use_type_invariant(&*mbc);
                }
                taken
            },
        }
    }
}

/// A cartridge: the image and the state of its bank controller.
pub struct RomModel {
    pub bytes: Seq<u8>,
    pub controller: ControllerModel,
}

/// How many bytes the title has: it ends at the first zero byte, or after
/// fifteen bytes.
pub open spec fn title_length(rom: Seq<u8>, from: nat) -> nat
    decreases TITLE_LENGTH - from,
{
    if from >= TITLE_LENGTH || spec_rom_byte(rom, TITLE_START + from) == 0 {
        from
    } else {
        title_length(rom, from + 1)
    }
}

/// The title in the header of the image `rom`, byte for character.
pub open spec fn title_of(rom: Seq<u8>) -> Seq<char> {
    Seq::new(title_length(rom, 0), |k: int| spec_rom_byte(rom, TITLE_START + k) as char)
}

impl RomModel {
    pub open spec fn wf(self) -> bool {
        self.controller.wf()
    }

    /// The cartridge made from the image `bytes`, if its header names a
    /// supported bank controller.
    pub open spec fn load(bytes: Seq<u8>) -> Result<RomModel, RomError> {
        if bytes.len() <= CARTRIDGE_TYPE {
            Err(RomError::Truncated)
        } else {
            match spec_controller_kind(bytes[CARTRIDGE_TYPE as int]) {
                Some(kind) => Ok(
                    RomModel { bytes, controller: ControllerModel::initial(kind) },
                ),
                None => Err(RomError::UnsupportedType(bytes[CARTRIDGE_TYPE as int])),
            }
        }
    }

    pub open spec fn read(self, address: u16) -> u8 {
        self.controller.read(self.bytes, address)
    }

    pub open spec fn write(self, address: u16, data: u8) -> RomModel {
        RomModel { controller: self.controller.write(address, data), ..self }
    }

    /// The cartridge with its external RAM replaced by `data`, where `data`
    /// has the size of the external RAM; the cartridge unchanged otherwise.
    pub open spec fn restore(self, data: Seq<u8>) -> RomModel {
        if data.len() == self.controller.eram().len() {
            RomModel { controller: self.controller.with_eram(data), ..self }
        } else {
            self
        }
    }
}

/// A cartridge.
pub struct Rom {
    bytes: Vec<u8>,
    controller: Controller,
}

impl View for Rom {
    type V = RomModel;

    closed spec fn view(&self) -> RomModel {
        RomModel { bytes: self.bytes@, controller: self.controller@ }
    }
}

impl Rom {
    /// Makes a cartridge from an image. The image is kept byte for byte; the
    /// bank controller is the one that the header byte at `0x147` names.
    pub fn new(bytes: Vec<u8>) -> (rom: Result<Rom, RomError>)
        ensures
            match rom {
                Ok(r) => RomModel::load(bytes@) == Ok::<RomModel, RomError>(r@),
                Err(e) => RomModel::load(bytes@) == Err::<RomModel, RomError>(e),
            },
    {
        if bytes.len() <= CARTRIDGE_TYPE as usize {
            return Err(RomError::Truncated);
        }
        let cart_type: u8 = bytes[CARTRIDGE_TYPE as usize];
        match controller_kind(cart_type) {
            Some(kind) => Ok(Rom { bytes, controller: Controller::new(kind) }),
            None => Err(RomError::UnsupportedType(cart_type)),
        }
    }

    pub fn read(&self, address: u16) -> (value: u8)
        ensures
            value == self@.read(address),
            self@.wf(),
    {
        self.controller.read(&self.bytes, address)
    }

    pub fn write(&mut self, address: u16, data: u8)
        ensures
            final(self)@ == old(self)@.write(address, data),
            final(self)@.wf(),
    {
        self.controller.write(address, data);
    }

    /// The number of bytes in the image.
    pub fn size(&self) -> (n: usize)
        ensures
            n == self@.bytes.len(),
    {
        self.bytes.len()
    }

    pub fn cart_type(&self) -> (value: u8)
        ensures
            value == self@.read(CARTRIDGE_TYPE),
    {
        self.read(CARTRIDGE_TYPE)
    }

    pub fn cgb_flag(&self) -> (value: u8)
        ensures
            value == self@.read(CGB_FLAG),
    {
        self.read(CGB_FLAG)
    }

    pub fn sgb_flag(&self) -> (value: u8)
        ensures
            value == self@.read(SGB_FLAG),
    {
        self.read(SGB_FLAG)
    }

    pub fn rom_size(&self) -> (value: u8)
        ensures
            value == self@.read(ROM_SIZE),
    {
        self.read(ROM_SIZE)
    }

    pub fn ram_size(&self) -> (value: u8)
        ensures
            value == self@.read(RAM_SIZE),
    {
        self.read(RAM_SIZE)
    }

    /// The title in the header.
    pub fn name(&self) -> (name: String)
        ensures
            name@ == title_of(self@.bytes),
    {
        let mut name = String::new();
        let mut index: usize = 0;
        while index < TITLE_LENGTH && crate::mbc::rom_byte(&self.bytes, TITLE_START + index) != 0
            invariant
                index <= TITLE_LENGTH,
                title_length(self@.bytes, 0) == title_length(self@.bytes, index as nat),
                name@ == Seq::new(
                    index as nat,
                    |k: int| spec_rom_byte(self@.bytes, TITLE_START + k) as char,
                ),
            decreases TITLE_LENGTH - index,
        {
            let code: u8 = crate::mbc::rom_byte(&self.bytes, TITLE_START + index);
            push_char(&mut name, code as char);
            assert(name@ =~= Seq::new(
                (index + 1) as nat,
                |k: int| spec_rom_byte(self@.bytes, TITLE_START + k) as char,
            ));
            index = index + 1;
        }
        name
    }

    /// The name of the file the external RAM is saved in: the title with
    /// `.sav` after it.
    pub fn save_name(&self) -> (name: String)
        ensures
            name@ == title_of(self@.bytes) + ".sav"@,
    {
        let mut name = self.name();
        name.append(".sav");
        name
    }

    /// Hands out the external RAM for saving.
    pub fn persist(&self) -> (data: Vec<u8>)
        ensures
            data@ == self@.controller.eram(),
    {
        self.controller.persist()
    }

    /// Takes over saved external RAM, if `data` has the size of the external
    /// RAM; says whether it did.
    pub fn restore(&mut self, data: &Vec<u8>) -> (taken: bool)
        ensures
            taken == (data@.len() == old(self)@.controller.eram().len()),
            final(self)@ == old(self)@.restore(data@),
            final(self)@.wf(),
    {
        self.controller.restore(data)
    }

    /// The image, as it was given.
    pub fn image(&self) -> (bytes: &Vec<u8>)
        ensures
            bytes@ == self@.bytes,
    {
        &self.bytes
    }
}

/// A cartridge made from an image holds that image unchanged, and what is
/// saved of a cartridge and then restored leaves the cartridge as it was.
pub proof fn lemma_image_and_save_round_trip(bytes: Seq<u8>, rom: RomModel)
    requires
        rom.wf(),
    ensures
        RomModel::load(bytes) matches Ok(made) ==> made.bytes == bytes && made.wf(),
        rom.restore(rom.controller.eram()) == rom,
{
    match rom.controller {
        ControllerModel::Mbc0 => {},
        ControllerModel::Mbc1(m) => {},
        ControllerModel::Mbc3(m) => {},
        ControllerModel::Mbc5(m) => {},
    }
}


impl RomModel {
    /// The header written out: the title, and each of the flags, sizes and
    /// types that the header holds, as a number and in words.
    pub open spec fn text(self) -> Seq<char> {
        "== ROM HEADER ==\nTitle: "@ + title_of(self.bytes) + "\nCGB Flag: $"@ + hex_byte(
            self.read(CGB_FLAG),
        ) + " - "@ + spec_cgb_flag_text(self.read(CGB_FLAG)) + "\nSGB Flag: $"@ + hex_byte(
            self.read(SGB_FLAG),
        ) + " - "@ + spec_sgb_flag_text(self.read(SGB_FLAG)) + "\nROM Size: $"@ + hex_byte(
            self.read(ROM_SIZE),
        ) + " - "@ + spec_rom_size_text(self.read(ROM_SIZE)) + "\nRAM Size: $"@ + hex_byte(
            self.read(RAM_SIZE),
        ) + " - "@ + spec_ram_size_text(self.read(RAM_SIZE)) + "\nDestination Code: "@
            + spec_destination_text(self.read(DESTINATION)) + "\nCartridge Type: $"@ + hex_byte(
            self.read(CARTRIDGE_TYPE),
        ) + " - "@ + spec_cart_type_text(self.read(CARTRIDGE_TYPE)) + "\n== END ROM HEADER =="@
    }
}

impl Rom {
    /// Appends a header byte as a number and in words.
    fn push_field(text: &mut String, label: &str, code: u8, meaning: &str)
        ensures
            final(text)@ == old(text)@ + label@ + hex_byte(code) + " - "@ + meaning@,
    {
        text.append(label);
        push_hex_byte(text, code);
        text.append(" - ");
        text.append(meaning);
    }

    /// Writes the header out.
    pub fn to_string(&self) -> (text: String)
        ensures
            text@ == self@.text(),
    {
        let mut text = String::from_str("== ROM HEADER ==\nTitle: ");
        let name = self.name();
        text.append(name.as_str());
        let cgb: u8 = self.cgb_flag();
        Rom::push_field(&mut text, "\nCGB Flag: $", cgb, cgb_flag_text(cgb));
        let sgb: u8 = self.sgb_flag();
        Rom::push_field(&mut text, "\nSGB Flag: $", sgb, sgb_flag_text(sgb));
        let rom_size: u8 = self.rom_size();
        Rom::push_field(&mut text, "\nROM Size: $", rom_size, rom_size_text(rom_size));
        let ram_size: u8 = self.ram_size();
        Rom::push_field(&mut text, "\nRAM Size: $", ram_size, ram_size_text(ram_size));
        text.append("\nDestination Code: ");
        text.append(destination_text(self.read(DESTINATION)));
        let cart_type: u8 = self.cart_type();
        Rom::push_field(&mut text, "\nCartridge Type: $", cart_type, cart_type_text(cart_type));
        text.append("\n== END ROM HEADER ==");
        text
    }
}

} // verus!
