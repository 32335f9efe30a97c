use manaslu::ppu::registers::{PPURegisters, Registers, VramAddressFlags};

#[test]
fn write_ppuctrl_sets_nametable_select_bits() {
    // Arrange
    let mut registers = Registers::new();

    // Act & Assert
    registers.set_register(PPURegisters::PpuCtrl, 0b0000_0000);
    assert_eq!(registers.t, 0);

    registers.set_register(PPURegisters::PpuCtrl, 0b0000_0001);
    assert_eq!(registers.t, 0b0000100_00000000);

    registers.set_register(PPURegisters::PpuCtrl, 0b0000_0010);
    assert_eq!(registers.t, 0b0001000_00000000);

    registers.set_register(PPURegisters::PpuCtrl, 0b0000_0011);
    assert_eq!(registers.t, 0b0001100_00000000);
}

#[test]
fn read_ppustatus_resets_w_flag() {
    // Arrange
    let mut registers = Registers::new();
    registers.w = true;

    // Act
    registers.get_register(PPURegisters::PpuStatus);

    // Assert
    assert_eq!(registers.w, false);
}

#[test]
fn write_ppuscroll_first_write_sets_t_x_w_flags() {
    // Arrange
    let mut registers = Registers::new();
    registers.w = false;

    // Act
    registers.set_register(PPURegisters::PpuScroll, 0b11101_111);

    // Assert
    assert_eq!(registers.t, 0b000_00_00000_11101);
    assert_eq!(registers.x, 0b111);
    assert_eq!(registers.w, true);
}

#[test]
fn write_ppuscroll_second_write_sets_t_w_flags() {
    // Arrange
    let mut registers = Registers::new();
    registers.w = true;

    // Act
    registers.set_register(PPURegisters::PpuScroll, 0b11111111);

    // Assert
    assert_eq!(registers.t, 0b111_00_11111_00000);
    assert_eq!(registers.w, false);
}

#[test]
fn write_ppuaddr_first_write_sets_t_w_flags() {
    // Arrange
    let mut registers = Registers::new();
    registers.w = false;
    registers.t = 0b100_00_00000_00000;

    // Act
    registers.set_register(PPURegisters::PpuAddr, 0b11110011);

    // Assert
    assert_eq!(registers.t, 0b0110011_00000000);
    assert_eq!(registers.w, true);
}

#[test]
fn write_ppu_addr_second_write_sets_t_w_v_flags() {
    // Arrange
    let mut registers = Registers::new();
    registers.w = true;

    // Act
    registers.set_register(PPURegisters::PpuAddr, 0b11111001);

    // Assert
    assert_eq!(registers.t, 0b11111001);
    assert_eq!(registers.w, false);
    assert_eq!(registers.v, registers.t);
}

#[test]
fn write_ppudata_increments_v_by_one_when_increment_disabled() {
    // Arrange
    let mut registers = Registers::new();
    registers.v = 0x2000;

    // Act
    registers.set_register(PPURegisters::PpuData, 0xFF);

    // Assert
    assert_eq!(registers.v, 0x2001);
}

#[test]
fn write_ppudata_increments_v_by_32_when_increment_enabled() {
    // Arrange
    let mut registers = Registers::new();
    registers.v = 0x2000;

    // Enable VRAM increment by 32
    registers.set_register(PPURegisters::PpuCtrl, 0b0000_0100);

    // Act
    registers.set_register(PPURegisters::PpuData, 0xFF);

    // Assert
    assert_eq!(registers.v, 0x2020);
}

#[test]
fn read_ppudata_increments_v_by_one_when_increment_disabled() {
    // Arrange
    let mut registers = Registers::new();
    registers.v = 0x2000;

    // Act
    registers.get_register(PPURegisters::PpuData);

    // Assert
    assert_eq!(registers.v, 0x2001);
}

#[test]
fn read_ppudata_increments_v_by_32_when_increment_enabled() {
    // Arrange
    let mut registers = Registers::new();
    registers.v = 0x2000;

    // Enable VRAM increment by 32
    registers.set_register(PPURegisters::PpuCtrl, 0b0000_0100);

    // Act
    registers.get_register(PPURegisters::PpuData);

    // Assert
    assert_eq!(registers.v, 0x2020);
}

#[test]
fn write_ppudata_during_rendering_increments_x_and_y() {
    // Arrange
    let mut registers = Registers::new();

    // coarse X = 31, coarse Y = 0, fine Y = 0
    registers.v = 0b000_00_00000_11111;

    registers.is_rendering = true;

    // Act
    registers.set_register(PPURegisters::PpuData, 0xFF);

    // Assert
    assert_eq!(registers.v, 0b100_00_00101_00001);
}

#[test]
fn write_ppudata_during_rendering_increments_fine_y() {
    // Arrange
    let mut registers = Registers::new();

    // fine Y = 3, coarse Y = 5, coarse X = 0
    registers.v = 0b011_00_00101_00000;

    registers.is_rendering = true;

    // Act
    registers.set_register(PPURegisters::PpuData, 0xFF);

    // Assert
    // fine Y: 3 -> 4
    assert_eq!(registers.v, 0b100_00_00101_00001);    }

#[test]
fn set_v_flags() {
    let mut registers = Registers::new();
    
    registers.set_v_flag(VramAddressFlags::CoarseXScroll, 0b01110);
    assert_eq!(registers.v, 0b000_00_00000_01110);
    
    registers.set_v_flag(VramAddressFlags::FineYScroll, 0b111);
    assert_eq!(registers.v, 0b111_00_00000_01110);
    
    registers.set_v_flag(VramAddressFlags::NametableSelect, 0b11);
    assert_eq!(registers.v, 0b111_11_00000_01110);
}

#[test]
fn set_t_flags() {
    let mut registers = Registers::new();

    registers.set_t_flag(VramAddressFlags::CoarseXScroll, 0b01110);
    assert_eq!(registers.t, 0b000_00_00000_01110);

    registers.set_t_flag(VramAddressFlags::FineYScroll, 0b111);
    assert_eq!(registers.t, 0b111_00_00000_01110);

    registers.set_t_flag(VramAddressFlags::NametableSelect, 0b11);
    assert_eq!(registers.t, 0b111_11_00000_01110);

}

#[test]
fn write_ppuaddr_two_write_mechanism() {
    let mut registers = Registers::new();
    
    // First write: high byte
    registers.set_register(PPURegisters::PpuAddr, 0x21);
    assert_eq!(registers.w, true);
    assert_eq!(registers.t, 0x2100);
    assert_eq!(registers.v, 0); // v only updated on second write
    
    // Second write: low byte
    registers.set_register(PPURegisters::PpuAddr, 0x08);
    assert_eq!(registers.w, false);
    assert_eq!(registers.t, 0x2108);
    assert_eq!(registers.v, 0x2108);
}
