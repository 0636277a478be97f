# dirst

Spatial distance metrics, geodesic curves, and travel-time calculations.

- `src/` is the verified library: the distance methods, their names, the
  computation each one stands for and the configuration it carries
  (`method`), the validation outcomes and error messages of the distance computations (`error`,
  with decimal rendering in `decimal`), the row-major index layout of the
  metric tensor and the Christoffel symbols (`layout`), the upper-triangle
  enumerations used to fill symmetric tensors (`triangle`), and the panel
  layout of composite Simpson's rule (`quadrature`).
- `app/` holds the floating-point computations built on it: the distance
  metrics, coordinate conversions, the geodesic solver (always parallelised
  with rayon), and demonstration programs.
