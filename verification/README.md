# hyped_boards_stm32f767zi

The logic of the pod's STM32F767ZI boards, verified with Verus.

- `src/logging.rs` — the on-card log format: the descriptor block, the log
  entry descriptors and the timestamped messages, their byte layout and
  round trips, and the fixed-size text writer for messages.
- `src/sdmmc.rs` — what opening, writing, reading and clearing the logs
  reads from and writes to the card's blocks, and how the log chain stays
  linked.
- `src/navigation.rs` — the navigation frames and the merged kinematics.
- `src/motor.rs` — the motor controller's messages, the command and event
  state machines, the braking latch, and the motor bus frames.
- `src/messages.rs`, `src/bridge.rs` — the CAN messages and bus events, and
  the bridges between them and from the operator's MQTT controls.
- `src/status.rs` — the safety statuses published to the base station.
- `src/boards.rs` — how each board answers what it receives.

`app/` holds the firmware side: the card driver loop, the float conversions,
the shared statics and the tasks that carry out what the library decides.
