# Office candy weigher

Firmware logic for a scale that counts lollies: a load cell (HX710 converter)
weighs the jar, a Pico Display Pack shows the weight and the lolly count, an RGB
LED flashes blue when lollies are added and red when they are taken, and four
buttons adjust the lolly weight (A, B), record the weight (X), tare the scale
(Y), save the settings (long press of X) and calibrate (long press of Y).

`src/` is the verified library:

- `state.rs`, `state/effect.rs`: the state machine. `Event::resolve_at` takes a
  button, load cell or timer event to the next state and the requests for the
  firmware (persist settings, drive calibration, start timers), exactly as
  `resolve_spec` says; `output_state` works out what the LED and the display
  must show.
- `candy_weigher_ui.rs`, `text.rs`: the pictures, as drawing commands, with
  decimal text of the numbers.
- `round_robin_select.rs`: the order in which the event loop polls its futures.
- `tasks.rs`: the button and calibration logic of the firmware's tasks, with
  the message pattern and timing of a button over any sequence of inputs, and
  the calibration mean as the sum of the latest hundred readings.
- `hardware_controllers/`, `hx710.rs`: the arithmetic of the peripherals
  (PWM duty, frame buffer pixels, converter samples, flash ranges).
- `laws.rs`: properties of the state machine over all states and events.

Weights are held in tenths of a gram, the values that the scale displays and
stores. Raw readings are held in hundredths of a converter count, so that the
mean of a hundred readings taken during calibration is held exactly.

`app/` is the firmware around the library: peripherals, tasks and the event loop.
