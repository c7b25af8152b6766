# pyre_kernel

The verified core of the Pyre kernel's x86-64 support, written in Verus.

`src/` holds the logic: descriptor tables (GDT, IDT, TSS), control and
model-specific register values, the local APIC and x2APIC register
programming, the hardware-thread set-up plan, the timer choice, the start of
the other hardware threads and the reclaiming of bootloader memory, the boot
command line, and the NVMe, AHCI and framebuffer drivers' register layouts
and protocols. Verus proves every function there against its contract; the
constructors of the local vector table entries, whose types have one value
each, need none.
Register bit fields are read and written through the `bit_field` crate.

`app/` is the platform layer: it reads the processor (`cpuid`, control and
model-specific registers), the bootloader's responses (`limine`) and device
memory (`safe-mmio`), hands plain values to the library, and performs the
writes that the library's results describe.

`tests/` runs the library on concrete values.
