# weathr

A terminal weather scene: a house on a lawn with a pond, animals that wander
about, a sky that follows the weather, and a HUD with the current readings.

The library under `src/` is verified with Verus. It holds the screen layout,
the theme and season colours, the world scene's ground and decorations, the
animals' state machines and sprites, text fitting, the HUD and status row,
and the decisions of the application loop. Contracts are stated over
mathematical models; the laws the library keeps (regions never overlap, the
lawn stays above the status row, weather only tints sky and clouds, the cat
never wanders at night, and others) are public proof functions.

`app/` is the terminal program around it: command-line options, terminal
output, the frame loop, and the floating-point parts of the weather readings
and of the cat's and chickens' movement.

Outside crates are called through a few trusted functions whose contracts
are documented where they are declared: `unicode-width` for display widths,
`chrono` for the local month and hour, `rand` for random draws.
