use vstd::prelude::*;

use crate::bits::{
    has_bit, pack8, pack_high4, lemma_pack8_bits, lemma_pack_high4_bits,
};
use crate::io::IoError;

verus! {

/// Bytes of video memory.
pub const VRAM_LENGTH: usize = 0x2000;

/// Bytes of sprite attribute memory.
pub const SPRITE_RAM_LENGTH: usize = 0xa0;

/// Entries of the sprite attribute table, four bytes each.
pub const N_SPRITES: usize = 40;

pub const LCDC_LCD_DISPLAY_ENABLE_MASK: u8 = 0b1000_0000;
pub const LCDC_WINDOW_TILE_MAP_ADDRESS_MASK: u8 = 0b0100_0000;
pub const LCDC_WINDOW_DISPLAY_ENABLE_MASK: u8 = 0b0010_0000;
pub const LCDC_BG_WINDOW_TILE_DATA_ADDRESS_MASK: u8 = 0b0001_0000;
pub const LCDC_BG_TILE_MAP_ADDRESS_MASK: u8 = 0b0000_1000;
pub const LCDC_SPRITE_SIZE_MASK: u8 = 0b0000_0100;
pub const LCDC_SPRITE_DISPLAY_ENABLE_MASK: u8 = 0b0000_0010;
pub const LCDC_BG_DISPLAY_ENABLE_MASK: u8 = 0b0000_0001;

pub const SPRITE_PRIORITY_MASK: u8 = 0b1000_0000;
pub const SPRITE_FLIP_Y_MASK: u8 = 0b0100_0000;
pub const SPRITE_FLIP_X_MASK: u8 = 0b0010_0000;
pub const SPRITE_PALETTE_MASK: u8 = 0b0001_0000;

/// The four shades the display shows, lightest first.
#[derive(Clone, Copy, Debug, PartialEq, Eq, Structural)]
pub enum Color {
    White,
    LightGray,
    DarkGray,
    Black,
}

/// The shade that a two-bit code stands for.
pub open spec fn color_of(bits: u8) -> Color {
    if bits == 0 {
        Color::White
    } else if bits == 1 {
        Color::LightGray
    } else if bits == 2 {
        Color::DarkGray
    } else {
        Color::Black
    }
}

/// The two-bit code of a shade.
pub open spec fn code_of(c: Color) -> u8 {
    match c {
        Color::White => 0,
        Color::LightGray => 1,
        Color::DarkGray => 2,
        Color::Black => 3,
    }
}

impl Color {
    pub fn from_bits(val: u8) -> (r: Color)
        requires
            val <= 3,
        ensures
            r == color_of(val),
    {
        match val {
            0 => Color::White,
            1 => Color::LightGray,
            2 => Color::DarkGray,
            _ => Color::Black,
        }
    }

    pub fn to_bits(col: Color) -> (r: u8)
        ensures
            r == code_of(col),
            r <= 3,
    {
        match col {
            Color::White => 0b00,
            Color::LightGray => 0b01,
            Color::DarkGray => 0b10,
            Color::Black => 0b11,
        }
    }
}

/// A palette: the shade of each of the four colour codes.
#[derive(Clone, Copy, Debug, PartialEq, Eq, Structural)]
pub struct Palette {
    pub entry0: Color,
    pub entry1: Color,
    pub entry2: Color,
    pub entry3: Color,
}

impl Palette {
    /// The palette register: entry 0 in bits 0-1 up to entry 3 in bits 6-7.
    pub open spec fn byte(self) -> u8 {
        code_of(self.entry0) | (code_of(self.entry1) << 2) | (code_of(self.entry2) << 4) | (code_of(
            self.entry3,
        ) << 6)
    }

    /// The palette that a register byte describes.
    pub open spec fn from_byte(v: u8) -> Palette {
        Palette {
            entry0: color_of(v & 0b0000_0011),
            entry1: color_of((v & 0b0000_1100) >> 2),
            entry2: color_of((v & 0b0011_0000) >> 4),
            entry3: color_of((v & 0b1100_0000) >> 6),
        }
    }

    /// All four codes white.
    pub open spec fn white() -> Palette {
        Palette {
            entry0: Color::White,
            entry1: Color::White,
            entry2: Color::White,
            entry3: Color::White,
        }
    }
}

/// A palette byte unpacked and packed again is the same byte.
pub proof fn lemma_palette_round_trip(v: u8)
    ensures
        Palette::from_byte(v).byte() == v,
{
    let (a, b, c, d) = (
        v & 0b0000_0011,
        (v & 0b0000_1100) >> 2,
        (v & 0b0011_0000) >> 4,
        (v & 0b1100_0000) >> 6,
    );
    assert(a <= 3 && b <= 3 && c <= 3 && d <= 3 && (a | (b << 2) | (c << 4) | (d << 6)) == v)
        by (bit_vector)
        requires
            a == v & 0b0000_0011,
            b == (v & 0b0000_1100) >> 2,
            c == (v & 0b0011_0000) >> 4,
            d == (v & 0b1100_0000) >> 6,
    ;
}

/// One entry of the sprite attribute table.
#[derive(Clone, Copy, Debug, PartialEq, Eq, Structural)]
pub struct Sprite {
    pub position_y: u8,
    pub position_x: u8,
    pub tile_number: u8,
    pub priority: bool,
    pub flip_y: bool,
    pub flip_x: bool,
    /// Which object palette the sprite uses, 0 or 1.
    pub palette: usize,
}

impl Sprite {
    /// The attribute byte: priority, vertical flip, horizontal flip and palette in
    /// bits 7 to 4; the low nibble reads as zero.
    pub open spec fn attribute_byte(self) -> u8 {
        pack_high4(self.priority, self.flip_y, self.flip_x, self.palette != 0)
    }

    /// Byte `field` (0 to 3) of the entry.
    pub open spec fn byte_at(self, field: u8) -> u8 {
        if field == 0 {
            self.position_y
        } else if field == 1 {
            self.position_x
        } else if field == 2 {
            self.tile_number
        } else {
            self.attribute_byte()
        }
    }

    /// The entry after `v` is written to byte `field`.
    pub open spec fn with_byte(self, field: u8, v: u8) -> Sprite {
        if field == 0 {
            Sprite { position_y: v, ..self }
        } else if field == 1 {
            Sprite { position_x: v, ..self }
        } else if field == 2 {
            Sprite { tile_number: v, ..self }
        } else {
            Sprite {
                priority: has_bit(v, SPRITE_PRIORITY_MASK),
                flip_y: has_bit(v, SPRITE_FLIP_Y_MASK),
                flip_x: has_bit(v, SPRITE_FLIP_X_MASK),
                palette: if has_bit(v, SPRITE_PALETTE_MASK) {
                    1
                } else {
                    0
                },
                ..self
            }
        }
    }

    /// An entry with every byte zero.
    pub open spec fn zeroed() -> Sprite {
        Sprite {
            position_y: 0,
            position_x: 0,
            tile_number: 0,
            priority: false,
            flip_y: false,
            flip_x: false,
            palette: 0,
        }
    }
}

impl Default for Sprite {
    fn default() -> (r: Sprite)
        ensures
            r == Sprite::zeroed(),
    {
        Sprite {
            position_y: 0,
            position_x: 0,
            tile_number: 0,
            priority: false,
            flip_y: false,
            flip_x: false,
            palette: 0,
        }
    }
}

/// The entry that an attribute-memory offset falls in.
pub open spec fn sprite_index(addr: u8) -> u8 {
    addr >> 2
}

/// The byte within its entry that an attribute-memory offset selects.
pub open spec fn sprite_field(addr: u8) -> u8 {
    addr & 0b11
}

/// The byte of a sprite table at an attribute-memory offset.
pub open spec fn table_byte(t: Seq<Sprite>, addr: u8) -> u8 {
    t[sprite_index(addr) as int].byte_at(sprite_field(addr))
}

/// A sprite table after `v` is written at an attribute-memory offset.
pub open spec fn table_after_write(t: Seq<Sprite>, addr: u8, v: u8) -> Seq<Sprite> {
    t.update(sprite_index(addr) as int, t[sprite_index(addr) as int].with_byte(sprite_field(addr), v))
}

/// The register model of the picture processing unit.
pub struct PPU {
    pub sprite_ram: Vec<Sprite>,
    pub vram: Vec<u8>,
    pub lcd_display_enabled: bool,
    pub window_tile_map_address: bool,
    pub window_enabled: bool,
    pub background_window_tile_data_address: bool,
    pub background_tile_map_address: bool,
    /// Set for sprites 16 pixels high, clear for 8.
    pub sprite_size: bool,
    pub sprites_enabled: bool,
    pub background_enabled: bool,
    pub scroll_y: u8,
    pub scroll_x: u8,
    pub lcdc_y_coordinate: u8,
    pub ly_compare: u8,
    pub background_palette: Palette,
    pub object_palette0: Palette,
    pub object_palette1: Palette,
    pub window_y_position: u8,
    pub window_x_position: u8,
}

/// The PPU registers that a write reaches.
pub open spec fn ppu_writable(addr: u8) -> bool {
    addr == 0x40 || addr == 0x42 || addr == 0x43 || addr == 0x45 || addr == 0x47 || addr == 0x48
        || addr == 0x49 || addr == 0x4a || addr == 0x4b
}

/// The error of a PPU write to a register that no write reaches: the line
/// counter is read-only, the rest are unknown.
pub open spec fn ppu_write_error(addr: u8) -> IoError {
    if addr == 0x44 {
        IoError::ReadOnly(addr)
    } else {
        IoError::Unimplemented(addr)
    }
}

impl PPU {
    /// The fixed sizes of the two memories.
    pub open spec fn wf(&self) -> bool {
        self.sprite_ram@.len() == N_SPRITES && self.vram@.len() == VRAM_LENGTH
    }

    /// The LCD control register.
    pub open spec fn lcd_control_byte(&self) -> u8 {
        pack8(
            self.lcd_display_enabled,
            self.window_tile_map_address,
            self.window_enabled,
            self.background_window_tile_data_address,
            self.background_tile_map_address,
            self.sprite_size,
            self.sprites_enabled,
            self.background_enabled,
        )
    }

    /// The state after `v` is written to the LCD control register.
    pub open spec fn with_lcd_control(self, v: u8) -> PPU {
        PPU {
            lcd_display_enabled: has_bit(v, LCDC_LCD_DISPLAY_ENABLE_MASK),
            window_tile_map_address: has_bit(v, LCDC_WINDOW_TILE_MAP_ADDRESS_MASK),
            window_enabled: has_bit(v, LCDC_WINDOW_DISPLAY_ENABLE_MASK),
            background_window_tile_data_address: has_bit(v, LCDC_BG_WINDOW_TILE_DATA_ADDRESS_MASK),
            background_tile_map_address: has_bit(v, LCDC_BG_TILE_MAP_ADDRESS_MASK),
            sprite_size: has_bit(v, LCDC_SPRITE_SIZE_MASK),
            sprites_enabled: has_bit(v, LCDC_SPRITE_DISPLAY_ENABLE_MASK),
            background_enabled: has_bit(v, LCDC_BG_DISPLAY_ENABLE_MASK),
            ..self
        }
    }

    /// What a read of register `addr` shows, or `None` where no register is.
    pub open spec fn reg_value(&self, addr: u8) -> Option<u8> {
        if addr == 0x40 {
            Some(self.lcd_control_byte())
        } else if addr == 0x42 {
            Some(self.scroll_y)
        } else if addr == 0x43 {
            Some(self.scroll_x)
        } else if addr == 0x44 {
            Some(self.lcdc_y_coordinate)
        } else if addr == 0x45 {
            Some(self.ly_compare)
        } else if addr == 0x47 {
            Some(self.background_palette.byte())
        } else if addr == 0x48 {
            Some(self.object_palette0.byte())
        } else if addr == 0x49 {
            Some(self.object_palette1.byte())
        } else if addr == 0x4a {
            Some(self.window_y_position)
        } else if addr == 0x4b {
            Some(self.window_x_position)
        } else {
            None
        }
    }

    /// The state after `v` is written to register `addr`; unchanged where no
    /// write reaches.
    pub open spec fn after_write(self, addr: u8, v: u8) -> PPU {
        if addr == 0x40 {
            self.with_lcd_control(v)
        } else if addr == 0x42 {
            PPU { scroll_y: v, ..self }
        } else if addr == 0x43 {
            PPU { scroll_x: v, ..self }
        } else if addr == 0x45 {
            PPU { ly_compare: v, ..self }
        } else if addr == 0x47 {
            PPU { background_palette: Palette::from_byte(v), ..self }
        } else if addr == 0x48 {
            PPU { object_palette0: Palette::from_byte(v), ..self }
        } else if addr == 0x49 {
            PPU { object_palette1: Palette::from_byte(v), ..self }
        } else if addr == 0x4a {
            PPU { window_y_position: v, ..self }
        } else if addr == 0x4b {
            PPU { window_x_position: v, ..self }
        } else {
            self
        }
    }

    pub fn write_ppu(&mut self, addr: u8, val: u8) -> (r: Result<(), IoError>)
        ensures
            *final(self) == old(self).after_write(addr, val),
            r == if ppu_writable(addr) {
                Ok(())
            } else {
                Err(ppu_write_error(addr))
            },
    {
        match addr {
            0x40 => self.write_lcd_control(val),
            0x42 => self.scroll_y = val,
            0x43 => self.scroll_x = val,
            0x44 => return Err(IoError::ReadOnly(addr)),
            0x45 => self.ly_compare = val,
            0x47 => Self::write_palette(&mut self.background_palette, val),
            0x48 => Self::write_palette(&mut self.object_palette0, val),
            0x49 => Self::write_palette(&mut self.object_palette1, val),
            0x4a => self.window_y_position = val,
            0x4b => self.window_x_position = val,
            _ => return Err(IoError::Unimplemented(addr)),
        }
        Ok(())
    }

    pub fn read_ppu(&self, addr: u8) -> (r: Result<u8, IoError>)
        ensures
            r == match self.reg_value(addr) {
                Some(v) => Ok(v),
                None => Err(IoError::Unimplemented(addr)),
            },
    {
        match addr {
            0x40 => Ok(self.read_lcd_control()),
            0x42 => Ok(self.scroll_y),
            0x43 => Ok(self.scroll_x),
            0x44 => Ok(self.lcdc_y_coordinate),
            0x45 => Ok(self.ly_compare),
            0x47 => Ok(Self::read_palette(&self.background_palette)),
            0x48 => Ok(Self::read_palette(&self.object_palette0)),
            0x49 => Ok(Self::read_palette(&self.object_palette1)),
            0x4a => Ok(self.window_y_position),
            0x4b => Ok(self.window_x_position),
            _ => Err(IoError::Unimplemented(addr)),
        }
    }

    pub fn write_sprite_entry(&mut self, addr: u8, val: u8)
        requires
            old(self).wf(),
            addr < SPRITE_RAM_LENGTH,
        ensures
            final(self).wf(),
            final(self).sprite_ram@ == table_after_write(old(self).sprite_ram@, addr, val),
            *final(self) == (PPU { sprite_ram: final(self).sprite_ram, ..*old(self) }),
    {
        assert(addr < 160 ==> addr >> 2 < 40 && addr & 0b11 < 4) by (bit_vector);
        let sprite_index = (addr >> 2) as usize;
        let sprite_byte = addr & 0b11;
        let mut sprite = self.sprite_ram[sprite_index];
        match sprite_byte {
            0b00 => sprite.position_y = val,
            0b01 => sprite.position_x = val,
            0b10 => sprite.tile_number = val,
            _ => {
                sprite.priority = (val & SPRITE_PRIORITY_MASK) != 0;
                sprite.flip_y = (val & SPRITE_FLIP_Y_MASK) != 0;
                sprite.flip_x = (val & SPRITE_FLIP_X_MASK) != 0;
                sprite.palette = if (val & SPRITE_PALETTE_MASK) != 0 {
                    1
                } else {
                    0
                };
            },
        }
        self.sprite_ram.set(sprite_index, sprite);
    }

    pub fn read_sprite_entry(&self, addr: u8) -> (r: u8)
        requires
            self.wf(),
            addr < SPRITE_RAM_LENGTH,
        ensures
            r == table_byte(self.sprite_ram@, addr),
    {
        assert(addr < 160 ==> addr >> 2 < 40 && addr & 0b11 < 4) by (bit_vector);
        let sprite_index = (addr >> 2) as usize;
        let sprite_byte = addr & 0b11;
        let sprite = self.sprite_ram[sprite_index];
        match sprite_byte {
            0b00 => sprite.position_y,
            0b01 => sprite.position_x,
            0b10 => sprite.tile_number,
            _ => (if sprite.priority { SPRITE_PRIORITY_MASK } else { 0 }) | (if sprite.flip_y {
                SPRITE_FLIP_Y_MASK
            } else {
                0
            }) | (if sprite.flip_x { SPRITE_FLIP_X_MASK } else { 0 }) | (if sprite.palette != 0 {
                SPRITE_PALETTE_MASK
            } else {
                0
            }),
        }
    }

    pub fn read_palette(palette: &Palette) -> (r: u8)
        ensures
            r == palette.byte(),
    {
        Color::to_bits(palette.entry0) | (Color::to_bits(palette.entry1) << 2) | (Color::to_bits(
            palette.entry2,
        ) << 4) | (Color::to_bits(palette.entry3) << 6)
    }

    pub fn write_palette(palette: &mut Palette, val: u8)
        ensures
            *final(palette) == Palette::from_byte(val),
    {
        assert((val & 0b0000_0011) <= 3 && (val & 0b0000_1100) >> 2 <= 3 && (val & 0b0011_0000) >> 4
            <= 3 && (val & 0b1100_0000) >> 6 <= 3) by (bit_vector);
        let c0 = val & 0b0000_0011;
        let c1 = (val & 0b0000_1100) >> 2;
        let c2 = (val & 0b0011_0000) >> 4;
        let c3 = (val & 0b1100_0000) >> 6;
        palette.entry0 = Color::from_bits(c0);
        palette.entry1 = Color::from_bits(c1);
        palette.entry2 = Color::from_bits(c2);
        palette.entry3 = Color::from_bits(c3);
    }

    pub fn write_lcd_control(&mut self, val: u8)
        ensures
            *final(self) == old(self).with_lcd_control(val),
    {
        self.lcd_display_enabled = (val & LCDC_LCD_DISPLAY_ENABLE_MASK) != 0;
        self.window_tile_map_address = (val & LCDC_WINDOW_TILE_MAP_ADDRESS_MASK) != 0;
        self.window_enabled = (val & LCDC_WINDOW_DISPLAY_ENABLE_MASK) != 0;
        self.background_window_tile_data_address = (val & LCDC_BG_WINDOW_TILE_DATA_ADDRESS_MASK)
            != 0;
        self.background_tile_map_address = (val & LCDC_BG_TILE_MAP_ADDRESS_MASK) != 0;
        self.sprite_size = (val & LCDC_SPRITE_SIZE_MASK) != 0;
        self.sprites_enabled = (val & LCDC_SPRITE_DISPLAY_ENABLE_MASK) != 0;
        self.background_enabled = (val & LCDC_BG_DISPLAY_ENABLE_MASK) != 0;
    }

    pub fn read_lcd_control(&self) -> (r: u8)
        ensures
            r == self.lcd_control_byte(),
    {
        (if self.lcd_display_enabled { LCDC_LCD_DISPLAY_ENABLE_MASK } else { 0 }) | (
        if self.window_tile_map_address {
            LCDC_WINDOW_TILE_MAP_ADDRESS_MASK
        } else {
            0
        }) | (if self.window_enabled { LCDC_WINDOW_DISPLAY_ENABLE_MASK } else { 0 }) | (
        if self.background_window_tile_data_address {
            LCDC_BG_WINDOW_TILE_DATA_ADDRESS_MASK
        } else {
            0
        }) | (if self.background_tile_map_address { LCDC_BG_TILE_MAP_ADDRESS_MASK } else { 0 }) | (
        if self.sprite_size {
            LCDC_SPRITE_SIZE_MASK
        } else {
            0
        }) | (if self.sprites_enabled { LCDC_SPRITE_DISPLAY_ENABLE_MASK } else { 0 }) | (
        if self.background_enabled {
            LCDC_BG_DISPLAY_ENABLE_MASK
        } else {
            0
        })
    }
}

impl Default for PPU {
    /// Power-on state: everything zero, every palette white.
    fn default() -> (r: PPU)
        ensures
            r.wf(),
            forall|i: int| 0 <= i < N_SPRITES ==> r.sprite_ram@[i] == Sprite::zeroed(),
            forall|i: int| 0 <= i < VRAM_LENGTH ==> r.vram@[i] == 0,
            r.lcd_control_byte() == 0,
            r.scroll_y == 0 && r.scroll_x == 0 && r.lcdc_y_coordinate == 0 && r.ly_compare == 0,
            r.window_y_position == 0 && r.window_x_position == 0,
            r.background_palette == Palette::white(),
            r.object_palette0 == Palette::white(),
            r.object_palette1 == Palette::white(),
    {
        let mut sprite_ram: Vec<Sprite> = Vec::new();
        let mut i: usize = 0;
        while i < N_SPRITES
            invariant
                i <= N_SPRITES,
                sprite_ram@.len() == i,
                forall|k: int| 0 <= k < i ==> sprite_ram@[k] == Sprite::zeroed(),
            decreases N_SPRITES - i,
        {
            sprite_ram.push(Sprite::default());
            i = i + 1;
        }
        let mut vram: Vec<u8> = Vec::new();
        let mut j: usize = 0;
        while j < VRAM_LENGTH
            invariant
                j <= VRAM_LENGTH,
                vram@.len() == j,
                forall|k: int| 0 <= k < j ==> vram@[k] == 0,
            decreases VRAM_LENGTH - j,
        {
            vram.push(0);
            j = j + 1;
        }
        proof {
            crate::bits::lemma_pack_none();
        }
        let white = Palette {
            entry0: Color::White,
            entry1: Color::White,
            entry2: Color::White,
            entry3: Color::White,
        };
        PPU {
            sprite_ram,
            vram,
            lcd_display_enabled: false,
            window_tile_map_address: false,
            window_enabled: false,
            background_window_tile_data_address: false,
            background_tile_map_address: false,
            sprite_size: false,
            sprites_enabled: false,
            background_enabled: false,
            scroll_y: 0,
            scroll_x: 0,
            lcdc_y_coordinate: 0,
            ly_compare: 0,
            background_palette: white,
            object_palette0: white,
            object_palette1: white,
            window_y_position: 0,
            window_x_position: 0,
        }
    }
}

/// Every register that a write reaches reads back exactly the byte written: the
/// LCD control bits, the scroll, compare and window bytes, and each palette, whose
/// unpacking into shades loses nothing.
pub proof fn lemma_register_round_trip(p: PPU, addr: u8, v: u8)
    requires
        ppu_writable(addr),
    ensures
        p.after_write(addr, v).reg_value(addr) == Some(v),
{
    lemma_pack8_bits(v);
    lemma_palette_round_trip(v);
}

/// A write to a PPU register leaves the sprite table and video memory alone.
pub proof fn lemma_register_write_keeps_memory(p: PPU, addr: u8, v: u8)
    ensures
        p.after_write(addr, v).sprite_ram == p.sprite_ram,
        p.after_write(addr, v).vram == p.vram,
        p.after_write(addr, v).wf() == p.wf(),
{
}

/// For every entry 0 to 39 and field 0 to 3, a write at offset `entry << 2 | field`
/// reads back the byte written at that offset; the attribute byte reads back its
/// high nibble, where its four flags live. Every other entry is unchanged.
pub proof fn lemma_sprite_round_trip(t: Seq<Sprite>, entry: u8, field: u8, v: u8)
    requires
        t.len() == N_SPRITES,
        entry < N_SPRITES,
        field <= 3,
    ensures
        ((entry << 2) | field) < SPRITE_RAM_LENGTH,
        sprite_index((entry << 2) | field) == entry,
        sprite_field((entry << 2) | field) == field,
        table_byte(table_after_write(t, (entry << 2) | field, v), (entry << 2) | field) == if field
            == 3 {
            v & 0xf0
        } else {
            v
        },
        forall|i: int|
            0 <= i < N_SPRITES && i != entry ==> #[trigger] table_after_write(
                t,
                (entry << 2) | field,
                v,
            )[i] == t[i],
{
    assert(entry < 40 && field <= 3 ==> ((entry << 2) | field) < 160 && ((entry << 2) | field)
        >> 2 == entry && ((entry << 2) | field) & 0b11 == field) by (bit_vector);
    lemma_pack_high4_bits(v);
}

} // verus!
